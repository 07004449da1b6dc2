//! The playback state of one decoder instance, and the steps that a host
//! takes with it once per tick: check on the load, show a frame, refill the
//! decoder, handle restarts.
//!
//! Time is counted in nanoseconds.

use crate::queue::{FrameQueue, VideoFrame, BUF_SIZE};
use crate::segment::H264Video;
use crate::worker::{DecoderMessage, MessageView};
use vstd::prelude::*;

verus! {

/// When a buffered frame may be shown.
#[derive(Clone, Copy, Debug, PartialEq, Eq, Structural)]
pub enum PlaybackMode {
    /// The host ticks at the frame rate: every tick may show a frame.
    FixedStep,
    /// A tick may show a frame once more than `frame_time` has passed since
    /// the last frame was shown.
    RealTime { frame_time: u64 },
}

/// Where an instance stands in its life.
#[derive(Clone, Copy, Debug, PartialEq, Eq, Structural)]
pub enum PlaybackState {
    /// The video is not loaded yet.
    Loading,
    /// Frames are fed to the decoder and shown.
    Active,
    /// Nothing is fed and nothing is shown.
    Paused,
    /// The instance is gone. Nothing brings it back.
    Removed,
}

/// What the asset provider says of a video.
#[derive(Clone, Copy, Debug, PartialEq, Eq, Structural)]
pub enum LoadStatus {
    Loading,
    Ready,
    Failed,
    NotFound,
}

/// Marks an instance whose video is still loading.
#[derive(Clone, Copy, Debug, PartialEq, Eq, Structural)]
pub struct H264DecoderLoading;

/// Marks an instance that is paused.
#[derive(Clone, Copy, Debug, PartialEq, Eq, Structural)]
pub struct H264DecoderPause;

/// Says that the instance with this identity has shown a new frame.
#[derive(Clone, Copy, Debug, PartialEq, Eq, Structural)]
pub struct H264UpdateEvent(pub u64);

/// Asks the instance with this identity to start its video over. Which frame
/// shows next is not promised unless the instance is paused: then the frames
/// that were buffered before are dropped, and the instance plays again.
#[derive(Clone, Copy, Debug, PartialEq, Eq, Structural)]
pub struct H264RestartEvent(pub u64);

/// A frame to show, and what goes with it.
#[derive(Debug, PartialEq, Eq)]
pub struct FrameUpdate {
    /// The frame, which now belongs to the render target.
    pub frame: VideoFrame,
    /// The render target has another size than the frame and is to be resized
    /// to the frame's.
    pub resize: bool,
    /// The announcement to send.
    pub event: H264UpdateEvent,
}

/// What one display tick did.
#[derive(Debug, PartialEq, Eq)]
pub enum TickOutcome {
    /// No frame was shown.
    Idle,
    /// A frame was taken but the render target is missing: the instance is
    /// removed and the frame is dropped.
    Removed,
    /// A frame is to be shown.
    Updated(FrameUpdate),
}

/// The playback state of an instance as plain values.
pub struct Playback {
    pub repeat: bool,
    pub mode: PlaybackMode,
    pub state: PlaybackState,
    /// The position in the video of the frame to show next.
    pub next_frame: nat,
    /// The number of access units of the video, 0 until it is loaded.
    pub frame_count: nat,
    /// The position of the access unit to submit next.
    pub feed_index: nat,
    /// Access units that were submitted and that the worker is not known to
    /// have handled.
    pub in_flight: nat,
    /// Time since the last frame was shown, counted in real-time mode only.
    pub elapsed: nat,
    /// The worker was told to stop.
    pub stopped: bool,
}

impl Playback {
    /// What holds of every instance.
    pub open spec fn wf(self) -> bool {
        &&& self.next_frame == 0 || self.next_frame < self.frame_count
        &&& self.state is Loading ==> self.next_frame == 0
        &&& self.in_flight <= BUF_SIZE
        &&& self.stopped ==> self.state is Removed
    }

    /// A new instance: loading, at the start of its video.
    pub open spec fn created(repeat: bool, mode: PlaybackMode) -> Playback {
        Playback {
            repeat,
            mode,
            state: PlaybackState::Loading,
            next_frame: 0,
            frame_count: 0,
            feed_index: 0,
            in_flight: 0,
            elapsed: 0,
            stopped: false,
        }
    }

    /// The instance after a look at its load. `units` is the number of access
    /// units of the video where the video can be had.
    pub open spec fn loaded(self, status: LoadStatus, units: Option<nat>) -> Playback {
        if !(self.state is Loading) {
            self
        } else {
            match status {
                LoadStatus::Loading => self,
                LoadStatus::Failed | LoadStatus::NotFound => Playback {
                    state: PlaybackState::Removed,
                    ..self
                },
                LoadStatus::Ready => Playback {
                    state: PlaybackState::Active,
                    frame_count: match units {
                        Some(count) => count,
                        None => self.frame_count,
                    },
                    ..self
                },
            }
        }
    }

    /// The instance after `delta` more nanoseconds. The count stops at
    /// `u64::MAX`.
    pub open spec fn waited(self, delta: nat) -> Playback {
        match self.mode {
            PlaybackMode::FixedStep => self,
            PlaybackMode::RealTime { .. } => Playback {
                elapsed: if self.elapsed + delta > u64::MAX {
                    u64::MAX as nat
                } else {
                    self.elapsed + delta
                },
                ..self
            },
        }
    }

    /// A frame may be shown now.
    pub open spec fn due(self) -> bool {
        match self.mode {
            PlaybackMode::FixedStep => true,
            PlaybackMode::RealTime { frame_time } => self.elapsed > frame_time,
        }
    }

    /// The instance after it has shown one frame: one frame further, or back
    /// at the start after the last frame, where it pauses unless it repeats.
    pub open spec fn consumed(self) -> Playback {
        if self.next_frame + 1 >= self.frame_count {
            Playback {
                next_frame: 0,
                state: if self.repeat {
                    self.state
                } else {
                    PlaybackState::Paused
                },
                elapsed: 0,
                ..self
            }
        } else {
            Playback { next_frame: self.next_frame + 1, elapsed: 0, ..self }
        }
    }

    /// The instance once it is found that it cannot go on.
    pub open spec fn removed(self) -> Playback {
        Playback { state: PlaybackState::Removed, ..self }
    }

    /// One display tick of the instance with identity `id`: the instance, the
    /// queue and the outcome after it.
    pub open spec fn tick(
        self,
        id: u64,
        delta: nat,
        queue: Seq<VideoFrame>,
        target: Option<(usize, usize)>,
    ) -> (Playback, Seq<VideoFrame>, TickOutcome) {
        if !(self.state is Active) {
            (self, queue, TickOutcome::Idle)
        } else if !self.waited(delta).due() || queue.len() == 0 {
            (self.waited(delta), queue, TickOutcome::Idle)
        } else {
            match target {
                None => (self.waited(delta).removed(), queue.drop_first(), TickOutcome::Removed),
                Some(size) => (
                    self.waited(delta).consumed(),
                    queue.drop_first(),
                    TickOutcome::Updated(
                        FrameUpdate {
                            frame: queue.first(),
                            resize: size.0 != queue.first().width || size.1 != queue.first().height,
                            event: H264UpdateEvent(id),
                        },
                    ),
                ),
            }
        }
    }

    /// The instance once it is told that the worker has handled `handled`
    /// more of the units that were submitted to it.
    pub open spec fn settled(self, handled: nat) -> Playback {
        Playback {
            in_flight: if handled >= self.in_flight {
                0
            } else {
                (self.in_flight - handled) as nat
            },
            ..self
        }
    }

    /// How many access units to submit when `queue_len` frames are buffered
    /// and the video has `units` access units: what the queue would still
    /// lack once every unit in flight had given its frame, for an active
    /// instance with a video that is not empty.
    pub open spec fn quota(self, queue_len: nat, units: nat) -> nat {
        if self.state is Active && units > 0 && queue_len + self.in_flight < BUF_SIZE {
            (BUF_SIZE - queue_len - self.in_flight) as nat
        } else {
            0
        }
    }

    /// The position of the `i`-th access unit submitted from here on.
    pub open spec fn feed_position(self, i: nat, units: nat) -> nat {
        (self.feed_index + i) % units
    }

    /// The instance after it has submitted its quota.
    pub open spec fn fed(self, queue_len: nat, units: nat) -> Playback {
        if self.quota(queue_len, units) > 0 {
            Playback {
                feed_index: self.feed_position(self.quota(queue_len, units), units),
                in_flight: self.in_flight + self.quota(queue_len, units),
                ..self
            }
        } else {
            self
        }
    }

    /// A restart request is meant for this instance, which has identity `id`,
    /// and finds it loaded and not removed.
    pub open spec fn restarts_on(self, id: u64, event: H264RestartEvent) -> bool {
        event.0 == id && (self.state is Active || self.state is Paused)
    }

    /// The instance with identity `id` after a restart request: back at the
    /// start of its video, and active again where it was paused.
    pub open spec fn restarted(self, id: u64, event: H264RestartEvent) -> Playback {
        if self.restarts_on(id, event) {
            Playback { next_frame: 0, feed_index: 0, state: PlaybackState::Active, ..self }
        } else {
            self
        }
    }

    /// The queue of the instance with identity `id` after a restart request:
    /// emptied where the request finds the instance paused.
    pub open spec fn restarted_queue(
        self,
        id: u64,
        event: H264RestartEvent,
        queue: Seq<VideoFrame>,
    ) -> Seq<VideoFrame> {
        if self.restarts_on(id, event) && self.state is Paused {
            Seq::empty()
        } else {
            queue
        }
    }

    /// The instance after a request to pause.
    pub open spec fn paused(self) -> Playback {
        if self.state is Active {
            Playback { state: PlaybackState::Paused, ..self }
        } else {
            self
        }
    }

    /// The instance after a request to go on.
    pub open spec fn resumed(self) -> Playback {
        if self.state is Paused {
            Playback { state: PlaybackState::Active, ..self }
        } else {
            self
        }
    }

    /// The instance after its teardown.
    pub open spec fn torn_down(self) -> Playback {
        Playback { state: PlaybackState::Removed, stopped: true, ..self }
    }
}

/// The number of access units of a video that may not be there.
pub open spec fn unit_count(video: Option<&H264Video>) -> nat {
    match video {
        Some(video) => video@.len(),
        None => 0,
    }
}

/// The playback state of one decoder instance.
#[derive(Debug)]
pub struct H264Decoder {
    repeat: bool,
    mode: PlaybackMode,
    state: PlaybackState,
    next_frame: usize,
    frame_count: usize,
    frame_idx: usize,
    in_flight: usize,
    elapsed: u64,
    stopped: bool,
}

impl View for H264Decoder {
    type V = Playback;

    closed spec fn view(&self) -> Playback {
        Playback {
            repeat: self.repeat,
            mode: self.mode,
            state: self.state,
            next_frame: self.next_frame as nat,
            frame_count: self.frame_count as nat,
            feed_index: self.frame_idx as nat,
            in_flight: self.in_flight as nat,
            elapsed: self.elapsed as nat,
            stopped: self.stopped,
        }
    }
}

impl H264Decoder {
    #[verifier::type_invariant]
    spec fn inv(&self) -> bool {
        self@.wf()
    }

    /// A new instance: loading, at the start of its video.
    pub fn new(repeat: bool, mode: PlaybackMode) -> (decoder: H264Decoder)
        ensures
            decoder@ == Playback::created(repeat, mode),
            decoder@.wf(),
    {
        H264Decoder {
            repeat,
            mode,
            state: PlaybackState::Loading,
            next_frame: 0,
            frame_count: 0,
            frame_idx: 0,
            in_flight: 0,
            elapsed: 0,
            stopped: false,
        }
    }

    /// Pauses an active instance. Any other stays as it is.
    pub fn pause(&mut self)
        ensures
            final(self)@ == old(self)@.paused(),
            final(self)@.wf(),
    {
        proof {
            use_type_invariant(&*self);
        }
        match self.state {
            PlaybackState::Active => {
                self.state = PlaybackState::Paused;
            },
            _ => {},
        }
    }

    /// Lets a paused instance go on. Any other stays as it is.
    pub fn resume(&mut self)
        ensures
            final(self)@ == old(self)@.resumed(),
            final(self)@.wf(),
    {
        proof {
            use_type_invariant(&*self);
        }
        match self.state {
            PlaybackState::Paused => {
                self.state = PlaybackState::Active;
            },
            _ => {},
        }
    }

    /// Ends the instance. The first call hands out the `Stop` for the decode
    /// worker, every later one nothing: the worker is told once.
    pub fn teardown(&mut self) -> (message: Option<DecoderMessage>)
        ensures
            final(self)@ == old(self)@.torn_down(),
            old(self)@.stopped ==> message is None,
            !old(self)@.stopped ==> message == Some(DecoderMessage::Stop),
            final(self)@.wf(),
    {
        proof {
            use_type_invariant(&*self);
        }
        let first = !self.stopped;
        self.state = PlaybackState::Removed;
        self.stopped = true;
        if first {
            Some(DecoderMessage::Stop)
        } else {
            None
        }
    }

    /// The marker of an instance that is loading.
    pub fn loading(&self) -> (marker: Option<H264DecoderLoading>)
        ensures
            marker is Some <==> self@.state is Loading,
    {
        match self.state {
            PlaybackState::Loading => Some(H264DecoderLoading),
            _ => None,
        }
    }

    /// The marker of an instance that is paused.
    pub fn paused(&self) -> (marker: Option<H264DecoderPause>)
        ensures
            marker is Some <==> self@.state is Paused,
    {
        match self.state {
            PlaybackState::Paused => Some(H264DecoderPause),
            _ => None,
        }
    }

    /// Whether the video starts over after its last frame.
    pub fn repeat(&self) -> (repeat: bool)
        ensures
            repeat == self@.repeat,
    {
        self.repeat
    }

    /// When a buffered frame may be shown.
    pub fn mode(&self) -> (mode: PlaybackMode)
        ensures
            mode == self@.mode,
    {
        self.mode
    }

    /// Where the instance stands in its life.
    pub fn state(&self) -> (state: PlaybackState)
        ensures
            state == self@.state,
    {
        self.state
    }

    /// The position in the video of the frame to show next.
    pub fn next_frame(&self) -> (position: usize)
        ensures
            position == self@.next_frame,
    {
        self.next_frame
    }

    /// The number of access units of the video, 0 until it is loaded.
    pub fn frame_count(&self) -> (count: usize)
        ensures
            count == self@.frame_count,
    {
        self.frame_count
    }

    /// The position of the access unit to submit next.
    pub fn frame_idx(&self) -> (position: usize)
        ensures
            position == self@.feed_index,
    {
        self.frame_idx
    }

    /// The number of access units that were submitted and that the worker is
    /// not known to have handled.
    pub fn in_flight(&self) -> (units: usize)
        ensures
            units == self@.in_flight,
    {
        self.in_flight
    }

    /// Nanoseconds since the last frame was shown, counted in real-time mode.
    pub fn elapsed(&self) -> (nanos: u64)
        ensures
            nanos == self@.elapsed,
    {
        self.elapsed
    }
}

/// The load check of a tick. While the instance is loading: a video that is
/// ready makes it active, with the video's number of access units where
/// `video` is there; one that failed or was not found removes it.
pub fn begin_decode(decoder: &mut H264Decoder, status: LoadStatus, video: Option<&H264Video>)
    ensures
        final(decoder)@ == old(decoder)@.loaded(
            status,
            match video {
                Some(video) => Some(video@.len()),
                None => None,
            },
        ),
        final(decoder)@.wf(),
{
    proof {
        use_type_invariant(&*decoder);
    }
    match decoder.state {
        PlaybackState::Loading => match status {
            LoadStatus::Loading => {},
            LoadStatus::Failed | LoadStatus::NotFound => {
                decoder.state = PlaybackState::Removed;
            },
            LoadStatus::Ready => {
                match video {
                    Some(video) => {
                        decoder.frame_count = video.len();
                    },
                    None => {},
                }
                decoder.state = PlaybackState::Active;
            },
        },
        _ => {},
    }
}

/// The display step of a tick, `delta` nanoseconds after the one before, for
/// the instance with identity `id`. An active instance whose frame is due
/// takes the oldest frame off `queue`; with an empty queue it tries again at
/// the next tick. `target` is the size of the render target, or `None` where
/// it is missing.
pub fn decode_video(
    decoder: &mut H264Decoder,
    id: u64,
    delta: u64,
    queue: &mut FrameQueue,
    target: Option<(usize, usize)>,
) -> (outcome: TickOutcome)
    ensures
        (final(decoder)@, final(queue)@, outcome) == old(decoder)@.tick(
            id,
            delta as nat,
            old(queue)@,
            target,
        ),
        final(decoder)@.wf(),
{
    proof {
        use_type_invariant(&*decoder);
    }
    match decoder.state {
        PlaybackState::Active => {},
        _ => {
            return TickOutcome::Idle;
        },
    }
    let due = match decoder.mode {
        PlaybackMode::FixedStep => true,
        PlaybackMode::RealTime { frame_time } => {
            decoder.elapsed = decoder.elapsed.saturating_add(delta);
            decoder.elapsed > frame_time
        },
    };
    if !due {
        return TickOutcome::Idle;
    }
    match queue.pop_front() {
        None => TickOutcome::Idle,
        Some(frame) => match target {
            None => {
                decoder.state = PlaybackState::Removed;
                TickOutcome::Removed
            },
            Some(size) => {
                let resize = size.0 != frame.width || size.1 != frame.height;
                if decoder.next_frame + 1 >= decoder.frame_count {
                    decoder.next_frame = 0;
                    if !decoder.repeat {
                        decoder.state = PlaybackState::Paused;
                    }
                } else {
                    decoder.next_frame = decoder.next_frame + 1;
                }
                decoder.elapsed = 0;
                TickOutcome::Updated(
                    FrameUpdate { frame, resize, event: H264UpdateEvent(id) },
                )
            },
        },
    }
}

/// The feed step of a tick: the messages to send to the decode worker, in
/// order. `queue_len` is the number of frames that are buffered, and `handled`
/// the number of submitted units that the worker has handled since the feed
/// step before; the two are to be read off at one moment. An active instance
/// submits as many access units as the queue would lack once every unit in
/// flight had given its frame, from its feed position on and around the end of
/// the video; a video that is missing or empty gives none.
pub fn push_packet(
    decoder: &mut H264Decoder,
    queue_len: usize,
    handled: usize,
    video: Option<&H264Video>,
) -> (messages: Vec<DecoderMessage>)
    ensures
        final(decoder)@ == old(decoder)@.settled(handled as nat).fed(
            queue_len as nat,
            unit_count(video),
        ),
        messages@.len() == old(decoder)@.settled(handled as nat).quota(
            queue_len as nat,
            unit_count(video),
        ),
        forall|i: int|
            0 <= i < messages@.len() ==> #[trigger] messages@[i]@ == MessageView::Frame(
                video.unwrap()@[old(decoder)@.feed_position(i as nat, unit_count(video)) as int],
            ),
        queue_len + old(decoder)@.settled(handled as nat).in_flight <= BUF_SIZE ==> queue_len
            + final(decoder)@.in_flight <= BUF_SIZE,
        final(decoder)@.wf(),
{
    proof {
        use_type_invariant(&*decoder);
    }
    decoder.in_flight = if handled >= decoder.in_flight {
        0
    } else {
        decoder.in_flight - handled
    };
    let mut messages: Vec<DecoderMessage> = Vec::new();
    match decoder.state {
        PlaybackState::Active => {},
        _ => {
            return messages;
        },
    }
    let video = match video {
        Some(video) => video,
        None => {
            return messages;
        },
    };
    let units = video.len();
    if units == 0 || queue_len >= BUF_SIZE || decoder.in_flight >= BUF_SIZE - queue_len {
        return messages;
    }
    let count = BUF_SIZE - queue_len - decoder.in_flight;
    let ghost start = decoder.frame_idx as int;
    let mut index = decoder.frame_idx % units;
    let mut sent: usize = 0;
    while sent < count
        invariant
            units == video@.len(),
            units > 0,
            0 <= start,
            sent <= count,
            index == (start + sent) % (units as int),
            messages@.len() == sent,
            forall|i: int|
                0 <= i < sent ==> #[trigger] messages@[i]@ == MessageView::Frame(
                    video@[(start + i) % (units as int)],
                ),
        decreases count - sent,
    {
        let unit = match video.unit(index) {
            Some(unit) => copy_unit(unit),
            None => Vec::new(),
        };
        messages.push(DecoderMessage::Frame(unit));
        proof {
            lemma_next_position(start + sent, units as int);
        }
        index = (index + 1) % units;
        sent = sent + 1;
    }
    decoder.frame_idx = index;
    decoder.in_flight = decoder.in_flight + count;
    messages
}

/// The restart step of a tick, for one request and the instance with identity
/// `id`. A request that names this instance, loaded and not removed, sends it
/// back to the start of its video. If the instance is paused, the frames in
/// `queue` are dropped as well and the instance is active again, so that the
/// next feed step submits from the first unit on.
pub fn restart_video(
    decoder: &mut H264Decoder,
    id: u64,
    event: &H264RestartEvent,
    queue: &mut FrameQueue,
)
    ensures
        final(decoder)@ == old(decoder)@.restarted(id, *event),
        final(queue)@ == old(decoder)@.restarted_queue(id, *event, old(queue)@),
        final(decoder)@.wf(),
{
    proof {
        use_type_invariant(&*decoder);
    }
    if event.0 != id {
        return ;
    }
    match decoder.state {
        PlaybackState::Active => {
            decoder.frame_idx = 0;
            decoder.next_frame = 0;
        },
        PlaybackState::Paused => {
            decoder.frame_idx = 0;
            decoder.next_frame = 0;
            decoder.state = PlaybackState::Active;
            queue.clear();
        },
        _ => {},
    }
}

impl Playback {
    /// The instance after it has shown one frame at each of `waits.len()`
    /// ticks, the `i`-th of them `waits[i]` nanoseconds after the one before.
    /// An instance that is not active shows nothing.
    pub open spec fn shown(self, waits: Seq<nat>) -> Playback
        decreases waits.len(),
    {
        if waits.len() == 0 {
            self
        } else {
            let before = self.shown(waits.drop_last());
            if before.state is Active {
                before.waited(waits.last()).consumed()
            } else {
                before
            }
        }
    }

    /// Every step keeps an instance well formed.
    pub proof fn lemma_steps_keep_wf(
        self,
        id: u64,
        status: LoadStatus,
        video: Option<nat>,
        delta: nat,
        queue: Seq<VideoFrame>,
        target: Option<(usize, usize)>,
        queue_len: nat,
        handled: nat,
        units: nat,
        event: H264RestartEvent,
    )
        requires
            self.wf(),
        ensures
            self.loaded(status, video).wf(),
            self.tick(id, delta, queue, target).0.wf(),
            self.settled(handled).wf(),
            self.fed(queue_len, units).wf(),
            self.restarted(id, event).wf(),
            self.paused().wf(),
            self.resumed().wf(),
            self.torn_down().wf(),
    {
    }

    /// Before the end of the video every frame shown moves an active instance
    /// one frame on and leaves it active.
    pub proof fn lemma_shown_before_end(self, waits: Seq<nat>)
        requires
            self.wf(),
            self.state is Active,
            self.next_frame + waits.len() < self.frame_count,
        ensures
            self.shown(waits) == (Playback {
                next_frame: self.next_frame + waits.len(),
                elapsed: self.shown(waits).elapsed,
                ..self
            }),
        decreases waits.len(),
    {
        if waits.len() > 0 {
            self.lemma_shown_before_end(waits.drop_last());
        }
    }

    /// Loop wrap: an instance that repeats is back at frame 0 after it has
    /// shown all frames of its video, and is active then and at every frame on
    /// the way.
    pub proof fn lemma_loop_wrap(self, waits: Seq<nat>)
        requires
            self.wf(),
            self.state is Active,
            self.repeat,
            self.next_frame == 0,
            waits.len() == self.frame_count,
        ensures
            self.shown(waits).next_frame == 0,
            forall|k: int|
                0 <= k <= waits.len() ==> (#[trigger] self.shown(waits.take(k))).state is Active,
            forall|k: int|
                0 <= k < waits.len() ==> (#[trigger] self.shown(waits.take(k))).next_frame == k,
    {
        assert forall|k: int| 0 <= k < waits.len() implies {
            &&& (#[trigger] self.shown(waits.take(k))).state is Active
            &&& self.shown(waits.take(k)).next_frame == k
        } by {
            self.lemma_shown_before_end(waits.take(k));
        }
        assert(waits.take(waits.len() as int) =~= waits);
        if waits.len() > 0 {
            let before = waits.take(waits.len() - 1);
            assert(waits.drop_last() =~= before);
            self.lemma_shown_before_end(before);
            assert(self.shown(before).state is Active);
            assert(self.shown(waits) == self.shown(before).waited(waits.last()).consumed());
        }
    }

    /// Non-repeat termination: an instance that does not repeat is paused at
    /// frame 0 after it has shown all frames of its video, and is active at
    /// every frame before the last.
    pub proof fn lemma_pause_at_end(self, waits: Seq<nat>)
        requires
            self.wf(),
            self.state is Active,
            !self.repeat,
            self.next_frame == 0,
            self.frame_count > 0,
            waits.len() == self.frame_count,
        ensures
            self.shown(waits).next_frame == 0,
            self.shown(waits).state is Paused,
            forall|k: int|
                0 <= k < waits.len() ==> {
                    &&& (#[trigger] self.shown(waits.take(k))).state is Active
                    &&& self.shown(waits.take(k)).next_frame == k
                },
    {
        assert forall|k: int| 0 <= k < waits.len() implies {
            &&& (#[trigger] self.shown(waits.take(k))).state is Active
            &&& self.shown(waits.take(k)).next_frame == k
        } by {
            self.lemma_shown_before_end(waits.take(k));
        }
        let before = waits.take(waits.len() - 1);
        assert(waits.drop_last() =~= before);
        self.lemma_shown_before_end(before);
        assert(self.shown(before).state is Active);
        assert(self.shown(waits) == self.shown(before).waited(waits.last()).consumed());
    }

    /// A tick that finds the queue empty shows nothing and leaves the queue
    /// empty: a missed frame is tried again at the next tick.
    pub proof fn lemma_tick_on_empty_queue(
        self,
        id: u64,
        delta: nat,
        target: Option<(usize, usize)>,
    )
        ensures
            self.tick(id, delta, Seq::empty(), target).1 == Seq::<VideoFrame>::empty(),
            self.tick(id, delta, Seq::empty(), target).2 is Idle,
            self.tick(id, delta, Seq::empty(), target).0 == if self.state is Active {
                self.waited(delta)
            } else {
                self
            },
    {
    }

    /// Restart while paused: the request empties the queue, sends the instance
    /// back to the start and makes it active again. The display tick that
    /// follows finds no frame and leaves the positions; the feed step that
    /// follows submits what the queue lacks, the video's units from the first
    /// one on.
    pub proof fn lemma_restart_while_paused(
        self,
        id: u64,
        queue: Seq<VideoFrame>,
        delta: nat,
        target: Option<(usize, usize)>,
        handled: nat,
        units: nat,
    )
        requires
            self.wf(),
            self.state is Paused,
            units > 0,
        ensures
            ({
                let event = H264RestartEvent(id);
                let restarted = self.restarted(id, event);
                let emptied = self.restarted_queue(id, event, queue);
                &&& emptied.len() == 0
                &&& restarted.next_frame == 0
                &&& restarted.feed_index == 0
                &&& restarted.state is Active
                &&& restarted.tick(id, delta, emptied, target) == (
                    restarted.waited(delta),
                    emptied,
                    TickOutcome::Idle,
                )
                &&& restarted.settled(handled).quota(0, units) == BUF_SIZE - restarted.settled(
                    handled,
                ).in_flight
                &&& forall|i: nat| i < units ==> #[trigger] restarted.feed_position(i, units) == i
            }),
    {
        let restarted = self.restarted(id, H264RestartEvent(id));
        assert forall|i: nat| i < units implies #[trigger] restarted.feed_position(i, units)
            == i by {
            vstd::arithmetic::div_mod::lemma_small_mod(i, units);
        }
    }

    /// Once the worker was told to stop, nothing more is submitted to it.
    pub proof fn lemma_nothing_after_stop(self, queue_len: nat, units: nat)
        requires
            self.wf(),
        ensures
            self.torn_down().stopped,
            self.stopped ==> self.quota(queue_len, units) == 0,
            self.torn_down().quota(queue_len, units) == 0,
            forall|handled: nat|
                (#[trigger] self.torn_down().settled(handled)).quota(queue_len, units) == 0,
    {
    }

    /// A removed instance stays removed: no step feeds it, shows a frame of
    /// it, touches its queue or moves it, and only its teardown changes it, by
    /// telling the worker to stop.
    pub proof fn lemma_removed_is_final(
        self,
        id: u64,
        status: LoadStatus,
        video: Option<nat>,
        delta: nat,
        queue: Seq<VideoFrame>,
        target: Option<(usize, usize)>,
        queue_len: nat,
        units: nat,
        event: H264RestartEvent,
    )
        requires
            self.state is Removed,
        ensures
            self.loaded(status, video) == self,
            self.tick(id, delta, queue, target) == (self, queue, TickOutcome::Idle),
            self.quota(queue_len, units) == 0,
            self.fed(queue_len, units) == self,
            self.restarted(id, event) == self,
            self.restarted_queue(id, event, queue) == queue,
            self.paused() == self,
            self.resumed() == self,
            self.torn_down() == (Playback { stopped: true, ..self }),
    {
    }

    /// Pacing: a tick shows a frame only of an active instance whose frame is
    /// due, which in real-time mode means that more than the frame time has
    /// passed since the last frame; the count of time starts over with the
    /// frame.
    pub proof fn lemma_shown_when_due(
        self,
        id: u64,
        delta: nat,
        queue: Seq<VideoFrame>,
        target: Option<(usize, usize)>,
    )
        requires
            self.tick(id, delta, queue, target).2 is Updated,
        ensures
            self.state is Active,
            self.waited(delta).due(),
            self.mode matches PlaybackMode::RealTime { frame_time } ==> self.waited(
                delta,
            ).elapsed > frame_time,
            queue.len() > 0,
            self.tick(id, delta, queue, target).0.elapsed == 0,
    {
    }

    /// A tick that shows a frame is one step of [`Playback::shown`].
    pub proof fn lemma_tick_shows_one(
        self,
        id: u64,
        delta: nat,
        queue: Seq<VideoFrame>,
        target: Option<(usize, usize)>,
    )
        requires
            self.tick(id, delta, queue, target).2 is Updated,
        ensures
            self.tick(id, delta, queue, target).0 == self.shown(seq![delta]),
    {
        let waits = seq![delta];
        assert(waits.drop_last() =~= Seq::<nat>::empty());
        assert(self.shown(waits.drop_last()) == self);
        assert(waits.last() == delta);
    }

    /// Real-time pacing: while the count of time fits, a tick of an active
    /// instance with its render target shows a frame exactly when the time
    /// counted so far and the tick's own come to more than the frame time and
    /// a frame is queued. The count starts over with a frame that is shown;
    /// otherwise it goes on by the tick's time and the queue stays as it is.
    pub proof fn lemma_real_time_pacing(
        self,
        id: u64,
        delta: nat,
        queue: Seq<VideoFrame>,
        size: (usize, usize),
        frame_time: u64,
    )
        requires
            self.state is Active,
            self.mode == (PlaybackMode::RealTime { frame_time }),
            self.elapsed + delta <= u64::MAX,
        ensures
            self.tick(id, delta, queue, Some(size)).2 is Updated <==> self.elapsed + delta
                > frame_time && queue.len() > 0,
            self.tick(id, delta, queue, Some(size)).2 is Updated ==> {
                &&& self.tick(id, delta, queue, Some(size)).0.elapsed == 0
                &&& self.tick(id, delta, queue, Some(size)).1 == queue.drop_first()
            },
            !(self.tick(id, delta, queue, Some(size)).2 is Updated) ==> {
                &&& self.tick(id, delta, queue, Some(size)).0.elapsed == self.elapsed + delta
                &&& self.tick(id, delta, queue, Some(size)).1 == queue
                &&& self.tick(id, delta, queue, Some(size)).2 is Idle
            },
    {
    }
}

/// A copy of an access unit.
fn copy_unit(unit: &Vec<u8>) -> (copy: Vec<u8>)
    ensures
        copy@ == unit@,
{
    let copy = unit.clone();
    assert(copy@ =~= unit@);
    copy
}

proof fn lemma_next_position(position: int, units: int)
    requires
        0 <= position,
        0 < units,
    ensures
        (position % units + 1) % units == (position + 1) % units,
{
    vstd::arithmetic::div_mod::lemma_add_mod_noop(position, 1, units);
    vstd::arithmetic::div_mod::lemma_mod_bound(position, units);
    if units == 1 {
    } else {
        vstd::arithmetic::div_mod::lemma_small_mod(1, units as nat);
    }
}

} // verus!
