//! The decode session of the track that is currently loaded: per-channel
//! queues of ready samples, the played-frame counter and the volume.

use crate::timebase::TimeBase;
use std::collections::VecDeque;
use vstd::prelude::*;

verus! {

/// Low-water mark: with fewer ready frames than this, and frames still to
/// play, the session asks for more audio before it serves a frame.
pub const MINIMUM_FRAMES_IN_BUFFER_COUNT: usize = 1028;

/// Why a source could not be opened as a decode session.
#[derive(Clone, Copy, Debug, PartialEq, Eq, Structural)]
pub enum DecodeError {
    /// The source could not be read.
    UnreadableSource,
    /// No demultiplexer or decoder matches the source.
    UnsupportedFormat,
    /// The selected stream lacks a field that playback needs.
    MissingMetadata,
}

/// What is known about a track once its source has been probed. Fixed for the
/// lifetime of the session.
#[derive(Clone, Copy, Debug)]
pub struct TrackMetadata {
    pub channel_count: usize,
    pub sample_rate: u32,
    pub time_base: TimeBase,
    pub frames_count: u64,
    pub track_id: u32,
}

impl TrackMetadata {
    pub fn new(
        channel_count: usize,
        sample_rate: u32,
        time_base: TimeBase,
        frames_count: u64,
        track_id: u32,
    ) -> (metadata: Self)
        ensures
            metadata == (TrackMetadata {
                channel_count,
                sample_rate,
                time_base,
                frames_count,
                track_id,
            }),
    {
        Self { channel_count, sample_rate, time_base, frames_count, track_id }
    }

    /// A track can be played when it has at least one channel and a time
    /// base without a zero part.
    pub open spec fn wf(&self) -> bool {
        self.channel_count >= 1 && self.time_base.nonzero()
    }
}

/// Progress report of a session. The played share of the track is
/// `played_frames / total_frames`; `volume` is the bit pattern of a double.
#[derive(Clone, Copy, Debug, PartialEq, Eq, Structural)]
pub struct TrackStatus {
    pub played_frames: u64,
    pub total_frames: u64,
    pub total_duration_secs: u64,
    pub played_secs: u64,
    pub volume: u64,
}

/// One sample per channel for a single instant, not yet scaled, together with
/// the volume that was in force when the frame was served.
#[derive(Debug)]
pub struct Frame {
    pub samples: Vec<u64>,
    pub volume: u64,
}

/// Number of frames that `len` interleaved samples span when every frame
/// holds `channels` samples; a trailing partial frame counts.
pub open spec fn frames_in(len: nat, channels: nat) -> nat {
    if len == 0 || channels == 0 {
        0
    } else {
        ((len - 1) / (channels as int) + 1) as nat
    }
}

/// The samples of channel `c` within an interleaved buffer. Where the last
/// frame is cut short, the missing sample is silence (the all-zero pattern).
pub open spec fn channel_samples(interleaved: Seq<u64>, channels: nat, c: nat) -> Seq<u64> {
    Seq::new(
        frames_in(interleaved.len(), channels),
        |k: int|
            if k * channels + c < interleaved.len() {
                interleaved[k * channels + c]
            } else {
                0u64
            },
    )
}

/// What the surroundings report to a session while a frame is being pulled.
#[derive(Debug)]
pub enum DecodeEvent {
    /// The output asks for the next frame.
    Pull,
    /// The demultiplexer produced a packet that belongs to this track id.
    Packet(u32),
    /// The demultiplexer produced no packet.
    EndOfStream,
    /// The packet decoded into these interleaved samples.
    Decoded(Vec<u64>),
    /// The packet was malformed; decoding can go on with the next one.
    Malformed,
    /// Decoding failed for good.
    Failed,
}

/// What a session asks for, or hands out, in answer to an event.
#[derive(Debug)]
pub enum DecodeAction {
    /// Read the next packet from the demultiplexer and report it.
    ReadPacket,
    /// Decode the packet that was just reported and report the outcome.
    DecodePacket,
    /// The pulled frame.
    Deliver(Frame),
    /// No frame is ready.
    Empty,
}

/// The fields of the default stream as the demultiplexer reports them; a
/// stream may leave any of the optional ones out.
#[derive(Clone, Copy, Debug)]
pub struct StreamParams {
    pub track_id: u32,
    pub channels: Option<usize>,
    pub sample_rate: Option<u32>,
    /// Numerator and denominator of the time base.
    pub time_base: Option<(u32, u32)>,
    pub n_frames: Option<u64>,
}

impl StreamParams {
    /// All four fields are present, there is at least one channel, and the
    /// time base has no zero part.
    pub open spec fn complete(self) -> bool {
        &&& self.channels is Some
        &&& self.channels->Some_0 >= 1
        &&& self.sample_rate is Some
        &&& self.time_base is Some
        &&& self.time_base->Some_0.0 > 0
        &&& self.time_base->Some_0.1 > 0
        &&& self.n_frames is Some
    }
}

/// How probing a source ended.
#[derive(Clone, Copy, Debug)]
pub enum ProbeOutcome {
    /// The source could not be read.
    Unreadable,
    /// No demultiplexer recognises the source, it holds no stream, or no
    /// decoder exists for its stream.
    Unsupported,
    /// The source was recognised; these are the fields of its default stream.
    Probed(StreamParams),
}

/// An immutable reference to an audio source: the path of a file.
#[derive(Clone, Debug)]
pub struct AudioFile {
    path: String,
}

impl View for AudioFile {
    type V = Seq<char>;

    closed spec fn view(&self) -> Seq<char> {
        self.path@
    }
}

impl AudioFile {
    pub fn new(path: String) -> (file: Self)
        ensures
            file@ == path@,
    {
        Self { path }
    }

    pub fn path(&self) -> (path: &str)
        ensures
            path@ == self@,
    {
        self.path.as_str()
    }

    /// Builds the decode session of this source from the outcome of probing
    /// it. The session starts at frame 0, with empty queues and the given
    /// volume.
    pub fn get_handle(&self, probe: ProbeOutcome, volume: u64) -> (handle: Result<
        TrackHandle,
        DecodeError,
    >)
        ensures
            opens(probe, volume, handle),
    {
        TrackHandle::open(probe, volume)
    }
}

/// The session, or the error, that a probe outcome leads to.
pub open spec fn opens(
    probe: ProbeOutcome,
    volume: u64,
    handle: Result<TrackHandle, DecodeError>,
) -> bool {
    match probe {
        ProbeOutcome::Unreadable => handle is Err && handle->Err_0
            == DecodeError::UnreadableSource,
        ProbeOutcome::Unsupported => handle is Err && handle->Err_0
            == DecodeError::UnsupportedFormat,
        ProbeOutcome::Probed(params) => if params.complete() {
            handle is Ok && fresh_session(params, volume, handle->Ok_0@)
        } else {
            handle is Err && handle->Err_0 == DecodeError::MissingMetadata
        },
    }
}

/// The error that a probe outcome leads to, if it leads to one.
pub open spec fn probe_error(probe: ProbeOutcome) -> Option<DecodeError> {
    match probe {
        ProbeOutcome::Unreadable => Some(DecodeError::UnreadableSource),
        ProbeOutcome::Unsupported => Some(DecodeError::UnsupportedFormat),
        ProbeOutcome::Probed(params) => if params.complete() {
            None
        } else {
            Some(DecodeError::MissingMetadata)
        },
    }
}

/// A session as it is right after opening the stream described by `params`:
/// the metadata is that of the stream, nothing has been played and nothing
/// is queued.
pub open spec fn fresh_session(params: StreamParams, volume: u64, session: SessionView) -> bool {
    &&& session.wf()
    &&& session.metadata.channel_count == params.channels->Some_0
    &&& session.metadata.sample_rate == params.sample_rate->Some_0
    &&& session.metadata.time_base.spec_numer() == params.time_base->Some_0.0
    &&& session.metadata.time_base.spec_denom() == params.time_base->Some_0.1
    &&& session.metadata.frames_count == params.n_frames->Some_0
    &&& session.metadata.track_id == params.track_id
    &&& session.volume == volume
    &&& session.time == 0
    &&& session.buffered() == 0
}

/// Mathematical model of a decode session.
pub struct SessionView {
    pub metadata: TrackMetadata,
    pub volume: u64,
    /// Played-frame counter.
    pub time: u64,
    /// Ready samples, one queue per channel, oldest first.
    pub queues: Seq<Seq<u64>>,
}

impl SessionView {
    /// One queue per channel, all of the same length.
    pub open spec fn wf(self) -> bool {
        &&& self.metadata.wf()
        &&& self.queues.len() == self.metadata.channel_count
        &&& forall|c: int|
            0 <= c < self.queues.len() ==> (#[trigger] self.queues[c]).len() == self.queues[0].len()
    }

    /// Number of frames that are ready to be served.
    pub open spec fn buffered(self) -> nat {
        self.queues[0].len()
    }

    pub open spec fn finished(self) -> bool {
        self.time >= self.metadata.frames_count
    }

    pub open spec fn needs_refill(self) -> bool {
        self.buffered() < MINIMUM_FRAMES_IN_BUFFER_COUNT && !self.finished()
    }

    /// The session with the samples of one decoded packet appended, each
    /// channel receiving its own.
    pub open spec fn enqueue(self, interleaved: Seq<u64>) -> SessionView {
        SessionView {
            queues: Seq::new(
                self.queues.len(),
                |c: int|
                    self.queues[c] + channel_samples(
                        interleaved,
                        self.metadata.channel_count as nat,
                        c as nat,
                    ),
            ),
            ..self
        }
    }

    /// The oldest ready frame: the front of every channel queue.
    pub open spec fn head_frame(self) -> Seq<u64> {
        Seq::new(self.queues.len(), |c: int| self.queues[c][0])
    }

    /// The counter after one more frame; it stops at the largest value.
    pub open spec fn next_time(self) -> u64 {
        if self.time < u64::MAX {
            (self.time + 1) as u64
        } else {
            self.time
        }
    }

    /// The session with one more frame counted as played.
    pub open spec fn counted(self) -> SessionView {
        SessionView { time: self.next_time(), ..self }
    }

    /// The session without its oldest ready frame: every channel queue has
    /// lost its front.
    pub open spec fn pop(self) -> SessionView {
        SessionView {
            queues: Seq::new(self.queues.len(), |c: int| self.queues[c].skip(1)),
            ..self
        }
    }

    /// The session repositioned to `seconds`: the counter moves to the
    /// matching timestamp and nothing decoded earlier stays queued.
    pub open spec fn seek(self, seconds: u64) -> SessionView {
        SessionView {
            queues: Seq::new(self.queues.len(), |c: int| Seq::<u64>::empty()),
            time: self.metadata.time_base.ticks_at(seconds),
            ..self
        }
    }

    pub open spec fn with_volume(self, volume: u64) -> SessionView {
        SessionView { volume, ..self }
    }

    /// Whether the track is still running `seconds` after its start: whether
    /// that many seconds are less than the total duration, which is
    /// `frames_count` ticks of `numer / denom` seconds each.
    pub open spec fn within(self, seconds: u64) -> bool {
        seconds * self.metadata.time_base.spec_denom() < self.metadata.frames_count
            * self.metadata.time_base.spec_numer()
    }

    pub open spec fn total_duration_secs(self) -> u64 {
        self.metadata.time_base.seconds_at(self.metadata.frames_count)
    }

    pub open spec fn played_secs(self) -> u64 {
        self.metadata.time_base.seconds_at(self.time)
    }

    pub open spec fn status(self) -> TrackStatus {
        TrackStatus {
            played_frames: self.time,
            total_frames: self.metadata.frames_count,
            total_duration_secs: self.total_duration_secs(),
            played_secs: self.played_secs(),
            volume: self.volume,
        }
    }
}

/// Serving from the state `pre`. With a frame ready, the oldest one is handed
/// out, unscaled and with the volume in force, and counted as played. With
/// nothing ready nothing is handed out and the queues stay as they are: a
/// finished session is left unchanged, while a session that still has frames
/// to play counts the frame slot that went by in silence, so that a stream
/// which ends early still comes to its end.
pub open spec fn serves(pre: SessionView, post: SessionView, action: DecodeAction) -> bool {
    if pre.buffered() > 0 {
        &&& action is Deliver
        &&& action->Deliver_0.samples@ == pre.head_frame()
        &&& action->Deliver_0.samples@.len() == pre.metadata.channel_count
        &&& action->Deliver_0.volume == pre.volume
        &&& post == pre.pop().counted()
    } else if pre.finished() {
        action is Empty && post == pre
    } else {
        action is Empty && post == pre.counted()
    }
}

/// Pulling a frame from the state `pre`. Below the low-water mark, with
/// frames still to play, a packet is asked for first and nothing changes;
/// otherwise the session serves.
pub open spec fn pulls(pre: SessionView, post: SessionView, action: DecodeAction) -> bool {
    if pre.needs_refill() {
        action is ReadPacket && post == pre
    } else {
        serves(pre, post, action)
    }
}

/// The answer of a session in state `pre` to `event`, and the state `post`
/// it is left in.
pub open spec fn pull_step_spec(
    pre: SessionView,
    event: DecodeEvent,
    post: SessionView,
    action: DecodeAction,
) -> bool {
    match event {
        DecodeEvent::Pull => pulls(pre, post, action),
        DecodeEvent::Packet(track_id) => post == pre && if track_id == pre.metadata.track_id {
            action is DecodePacket
        } else {
            action is ReadPacket
        },
        DecodeEvent::EndOfStream => serves(pre, post, action),
        DecodeEvent::Decoded(interleaved) => serves(pre.enqueue(interleaved@), post, action),
        DecodeEvent::Malformed => action is ReadPacket && post == pre,
        DecodeEvent::Failed => serves(pre, post, action),
    }
}

/// The live decode state of the loaded track.
pub struct TrackHandle {
    track_metadata: TrackMetadata,
    volume: u64,
    time: u64,
    samples: Vec<VecDeque<u64>>,
}

impl View for TrackHandle {
    type V = SessionView;

    closed spec fn view(&self) -> SessionView {
        SessionView {
            metadata: self.track_metadata,
            volume: self.volume,
            time: self.time,
            queues: Seq::new(self.samples@.len(), |c: int| self.samples@[c]@),
        }
    }
}

impl TrackHandle {
    pub open spec fn wf(&self) -> bool {
        self@.wf()
    }

    /// Starts a session at frame 0 with empty queues. A track without
    /// channels is refused.
    pub fn new(track_metadata: TrackMetadata, volume: u64) -> (handle: Result<Self, DecodeError>)
        ensures
            handle.is_ok() <==> track_metadata.channel_count >= 1,
            handle is Err ==> handle->Err_0 == DecodeError::MissingMetadata,
            handle is Ok ==> {
                let h = handle->Ok_0;
                &&& h.wf()
                &&& h@.metadata == track_metadata
                &&& h@.volume == volume
                &&& h@.time == 0
                &&& h@.buffered() == 0
            },
    {
        if track_metadata.channel_count == 0 {
            return Err(DecodeError::MissingMetadata);
        }
        // Every time base has non-zero parts; reading them brings that fact in.
        let _parts: (u32, u32) = (track_metadata.time_base.numer(), track_metadata.time_base.denom());
        let mut samples: Vec<VecDeque<u64>> = Vec::new();
        let mut c: usize = 0;
        while c < track_metadata.channel_count
            invariant
                c <= track_metadata.channel_count,
                samples@.len() == c,
                forall|i: int| 0 <= i < c ==> (#[trigger] samples@[i])@.len() == 0,
            decreases track_metadata.channel_count - c,
        {
            samples.push(VecDeque::new());
            c = c + 1;
        }
        Ok(TrackHandle { track_metadata, volume, time: 0, samples })
    }

    /// Builds a session from the outcome of probing a source: an unreadable
    /// or unsupported source, or a stream that lacks a needed field, gives
    /// the matching error; otherwise the session starts at frame 0 with
    /// empty queues and the given volume.
    pub fn open(probe: ProbeOutcome, volume: u64) -> (handle: Result<TrackHandle, DecodeError>)
        ensures
            opens(probe, volume, handle),
            handle is Err <==> probe_error(probe) is Some,
            handle is Err ==> probe_error(probe) == Some(handle->Err_0),
    {
        match probe {
            ProbeOutcome::Unreadable => Err(DecodeError::UnreadableSource),
            ProbeOutcome::Unsupported => Err(DecodeError::UnsupportedFormat),
            ProbeOutcome::Probed(params) => {
                let (channels, sample_rate, ratio, frames_count) = match (
                    params.channels,
                    params.sample_rate,
                    params.time_base,
                    params.n_frames,
                ) {
                    (Some(c), Some(r), Some(t), Some(n)) => (c, r, t, n),
                    _ => { return Err(DecodeError::MissingMetadata); },
                };
                let time_base = match TimeBase::new(ratio.0, ratio.1) {
                    Some(time_base) => time_base,
                    None => { return Err(DecodeError::MissingMetadata); },
                };
                TrackHandle::new(
                    TrackMetadata::new(
                        channels,
                        sample_rate,
                        time_base,
                        frames_count,
                        params.track_id,
                    ),
                    volume,
                )
            },
        }
    }

    pub fn get_metadata(&self) -> (metadata: TrackMetadata)
        ensures
            metadata == self@.metadata,
    {
        self.track_metadata
    }

    pub fn update_volume(&mut self, volume: u64)
        ensures
            final(self)@ == old(self)@.with_volume(volume),
    {
        self.volume = volume;
    }

    pub fn get_volume(&self) -> (volume: u64)
        ensures
            volume == self@.volume,
    {
        self.volume
    }

    pub fn has_finished(&self) -> (finished: bool)
        ensures
            finished == self@.finished(),
    {
        self.time >= self.track_metadata.frames_count
    }

    /// Counts one more played frame. The counter stops at the largest value
    /// instead of wrapping.
    pub fn increment_time(&mut self)
        ensures
            final(self)@ == old(self)@.counted(),
    {
        if self.time < u64::MAX {
            self.time = self.time + 1;
        }
    }

    /// Played frames and total frames; their quotient is the played share.
    pub fn get_percentage(&self) -> (ratio: (u64, u64))
        ensures
            ratio.0 == self@.time,
            ratio.1 == self@.metadata.frames_count,
    {
        (self.time, self.track_metadata.frames_count)
    }

    /// Number of frames ready to be served.
    pub fn buffered(&self) -> (n: usize)
        requires
            self.wf(),
        ensures
            n == self@.buffered(),
    {
        self.samples[0].len()
    }

    /// Whether more audio should be decoded before the next frame is served.
    pub fn needs_to_fetch_more_samples(&self) -> (needed: bool)
        requires
            self.wf(),
        ensures
            needed == self@.needs_refill(),
    {
        self.samples[0].len() < MINIMUM_FRAMES_IN_BUFFER_COUNT && !self.has_finished()
    }

    /// Whether a demultiplexed packet belongs to the stream of this session.
    pub fn accepts_packet(&self, track_id: u32) -> (accepted: bool)
        ensures
            accepted == (track_id == self@.metadata.track_id),
    {
        track_id == self.track_metadata.track_id
    }

    /// Appends the samples of one decoded packet, given interleaved, to the
    /// channel queues.
    pub fn enqueue_interleaved(&mut self, interleaved: &Vec<u64>)
        requires
            old(self).wf(),
        ensures
            final(self).wf(),
            final(self)@ == old(self)@.enqueue(interleaved@),
    {
        let channels = self.track_metadata.channel_count;
        let mut c: usize = 0;
        while c < channels
            invariant
                c <= channels,
                channels == old(self).track_metadata.channel_count,
                self.track_metadata == old(self).track_metadata,
                self.volume == old(self).volume,
                self.time == old(self).time,
                self.samples@.len() == channels,
                old(self).wf(),
                forall|i: int|
                    0 <= i < c ==> (#[trigger] self.samples@[i])@ == old(self).samples@[i]@
                        + channel_samples(interleaved@, channels as nat, i as nat),
                forall|i: int|
                    c <= i < channels ==> (#[trigger] self.samples@[i])@ == old(self).samples@[i]@,
            decreases channels - c,
        {
            let mut channel_buf = extract_channel(interleaved, channels, c);
            self.samples[c].append(&mut channel_buf);
            c = c + 1;
        }
        assert(self@.queues =~= old(self)@.enqueue(interleaved@).queues);
    }

    /// Takes the oldest ready frame off the queues. With nothing ready there
    /// is no frame, and the session stays as it is. The played-frame counter
    /// is left alone.
    fn take_frame(&mut self) -> (frame: Option<Frame>)
        requires
            old(self).wf(),
        ensures
            final(self).wf(),
            match frame {
                Some(f) => {
                    &&& old(self)@.buffered() > 0
                    &&& f.samples@ == old(self)@.head_frame()
                    &&& f.samples@.len() == old(self)@.metadata.channel_count
                    &&& f.volume == old(self)@.volume
                    &&& final(self)@ == old(self)@.pop()
                },
                None => old(self)@.buffered() == 0 && final(self)@ == old(self)@,
            },
    {
        if self.samples[0].len() == 0 {
            return None;
        }
        let channels = self.track_metadata.channel_count;
        let mut buf: Vec<u64> = Vec::new();
        let mut c: usize = 0;
        while c < channels
            invariant
                c <= channels,
                channels == old(self).track_metadata.channel_count,
                self.track_metadata == old(self).track_metadata,
                self.volume == old(self).volume,
                self.time == old(self).time,
                self.samples@.len() == channels,
                old(self).wf(),
                old(self)@.buffered() > 0,
                buf@.len() == c,
                forall|i: int| 0 <= i < c ==> #[trigger] buf@[i] == old(self).samples@[i]@[0],
                forall|i: int|
                    0 <= i < c ==> (#[trigger] self.samples@[i])@ == old(self).samples@[i]@.skip(1),
                forall|i: int|
                    c <= i < channels ==> (#[trigger] self.samples@[i])@ == old(self).samples@[i]@,
            decreases channels - c,
        {
            assert(old(self)@.queues[c as int].len() == old(self)@.queues[0].len());
            let front = self.samples[c].pop_front();
            match front {
                Some(sample) => buf.push(sample),
                None => {},
            }
            c = c + 1;
        }
        assert(buf@ =~= old(self)@.head_frame());
        assert(self@.queues =~= old(self)@.pop().queues);
        assert forall|i: int| 0 <= i < self@.queues.len() implies (#[trigger] self@.queues[i]).len()
            == self@.queues[0].len() by {
            assert(old(self)@.queues[i].len() == old(self)@.queues[0].len());
        }
        Some(Frame { samples: buf, volume: self.volume })
    }

    /// Serves a frame if one is ready.
    fn serve(&mut self) -> (action: DecodeAction)
        requires
            old(self).wf(),
        ensures
            final(self).wf(),
            serves(old(self)@, final(self)@, action),
    {
        let finished = self.has_finished();
        match self.take_frame() {
            Some(frame) => {
                self.increment_time();
                DecodeAction::Deliver(frame)
            },
            None => {
                if !finished {
                    self.increment_time();
                }
                DecodeAction::Empty
            },
        }
    }

    /// Pulls the next frame. With fewer than the low-water mark of frames
    /// ready and frames still to play, the answer is `ReadPacket`: the caller
    /// reads a packet and goes on with `pull_step`, and the session is
    /// unchanged. Otherwise no packet is asked for: the oldest ready frame is
    /// handed out and the played-frame counter advances by one, or, the
    /// session having finished with nothing left, the answer is `Empty` and
    /// the session is unchanged.
    pub fn get_sample_buffer(&mut self) -> (action: DecodeAction)
        requires
            old(self).wf(),
        ensures
            final(self).wf(),
            pulls(old(self)@, final(self)@, action),
            action is ReadPacket <==> old(self)@.needs_refill(),
            !(action is DecodePacket),
            action is Deliver ==> {
                &&& action->Deliver_0.samples@ == old(self)@.head_frame()
                &&& action->Deliver_0.samples@.len() == old(self)@.metadata.channel_count
                &&& action->Deliver_0.volume == old(self)@.volume
                &&& final(self)@ == old(self)@.pop().counted()
            },
            action is Empty ==> final(self)@ == old(self)@,
    {
        if self.needs_to_fetch_more_samples() {
            DecodeAction::ReadPacket
        } else {
            self.serve()
        }
    }

    /// One step of pulling a frame. A pull starts with `get_sample_buffer`,
    /// or with the event `Pull`, which is the same; the caller carries out
    /// each `ReadPacket` and `DecodePacket` that is asked for and reports
    /// what came of it, until a frame or `Empty` comes back. Below the low-water mark a pull tops the queues up by at most
    /// one decoded packet: packets of other streams and malformed packets are
    /// passed over, and the end of the stream or a fatal error ends the
    /// refill with what is queued.
    pub fn pull_step(&mut self, event: DecodeEvent) -> (action: DecodeAction)
        requires
            old(self).wf(),
        ensures
            final(self).wf(),
            pull_step_spec(old(self)@, event, final(self)@, action),
    {
        match event {
            DecodeEvent::Pull => self.get_sample_buffer(),
            DecodeEvent::Packet(track_id) => {
                if self.accepts_packet(track_id) {
                    DecodeAction::DecodePacket
                } else {
                    DecodeAction::ReadPacket
                }
            },
            DecodeEvent::EndOfStream => self.serve(),
            DecodeEvent::Decoded(interleaved) => {
                self.enqueue_interleaved(&interleaved);
                self.serve()
            },
            DecodeEvent::Malformed => DecodeAction::ReadPacket,
            DecodeEvent::Failed => self.serve(),
        }
    }

    /// Repositions the session to `seconds`: the played-frame counter moves
    /// to the matching timestamp and every queue is emptied, so that nothing
    /// decoded before the seek is served after it.
    pub fn seek(&mut self, seconds: usize)
        requires
            old(self).wf(),
        ensures
            final(self).wf(),
            final(self)@ == old(self)@.seek(seconds as u64),
    {
        self.time = self.track_metadata.time_base.calc_ticks(seconds as u64);
        let channels = self.track_metadata.channel_count;
        let mut c: usize = 0;
        while c < channels
            invariant
                c <= channels,
                channels == old(self).track_metadata.channel_count,
                self.track_metadata == old(self).track_metadata,
                self.volume == old(self).volume,
                self.time == old(self)@.metadata.time_base.ticks_at(seconds as u64),
                self.samples@.len() == channels,
                old(self).wf(),
                forall|i: int| 0 <= i < c ==> (#[trigger] self.samples@[i])@ == Seq::<u64>::empty(),
            decreases channels - c,
        {
            self.samples[c].clear();
            c = c + 1;
        }
        assert(self@.queues =~= old(self)@.seek(seconds as u64).queues);
    }

    /// Whether the track is still running `seconds` after its start.
    pub fn is_within(&self, seconds: usize) -> (within: bool)
        requires
            self.wf(),
        ensures
            within == self@.within(seconds as u64),
    {
        let numer: u128 = self.track_metadata.time_base.numer() as u128;
        let denom: u128 = self.track_metadata.time_base.denom() as u128;
        let frames: u128 = self.track_metadata.frames_count as u128;
        let wanted: u128 = seconds as u128;
        assert(wanted * denom <= 0xffff_ffff_ffff_ffff * 0xffff_ffff) by (nonlinear_arith)
            requires
                0 <= wanted <= 0xffff_ffff_ffff_ffff,
                0 <= denom <= 0xffff_ffff,
        ;
        assert(frames * numer <= 0xffff_ffff_ffff_ffff * 0xffff_ffff) by (nonlinear_arith)
            requires
                0 <= frames <= 0xffff_ffff_ffff_ffff,
                0 <= numer <= 0xffff_ffff,
        ;
        wanted * denom < frames * numer
    }

    /// Whole seconds that the track lasts.
    pub fn get_duration(&self) -> (seconds: u64)
        requires
            self.wf(),
        ensures
            seconds == self@.total_duration_secs(),
    {
        self.track_metadata.time_base.calc_seconds(self.track_metadata.frames_count)
    }

    /// Whole seconds played so far.
    pub fn get_played_time(&self) -> (seconds: u64)
        requires
            self.wf(),
        ensures
            seconds == self@.played_secs(),
    {
        self.track_metadata.time_base.calc_seconds(self.time)
    }

    pub fn get_status(&self) -> (status: TrackStatus)
        requires
            self.wf(),
        ensures
            status == self@.status(),
    {
        TrackStatus {
            played_frames: self.time,
            total_frames: self.track_metadata.frames_count,
            total_duration_secs: self.get_duration(),
            played_secs: self.get_played_time(),
            volume: self.volume,
        }
    }
}

/// If `x` lies in the `k`-th block of width `d`, then `x / d` is `k`.
proof fn lemma_block_index(x: int, d: int, k: int)
    requires
        d > 0,
        k * d <= x < (k + 1) * d,
    ensures
        x / d == k,
{
    assert(x / d == k) by (nonlinear_arith)
        requires
            d > 0,
            k * d <= x < (k + 1) * d,
    ;
}

/// Picks the samples of channel `c` out of an interleaved buffer.
fn extract_channel(interleaved: &Vec<u64>, channels: usize, c: usize) -> (out: VecDeque<u64>)
    requires
        channels >= 1,
        c < channels,
    ensures
        out@ == channel_samples(interleaved@, channels as nat, c as nat),
{
    let len = interleaved.len();
    let ghost frames = frames_in(len as nat, channels as nat);
    let ghost wanted = channel_samples(interleaved@, channels as nat, c as nat);
    let mut out: VecDeque<u64> = VecDeque::new();
    let mut base: usize = 0;
    let ghost mut k: int = 0;
    while base < len
        invariant
            len == interleaved@.len(),
            channels >= 1,
            c < channels,
            frames == frames_in(len as nat, channels as nat),
            wanted == channel_samples(interleaved@, channels as nat, c as nat),
            0 <= k <= frames,
            out@.len() == k,
            base <= len,
            base < len ==> base == k * channels,
            base == len ==> k == frames,
            forall|j: int| 0 <= j < k ==> #[trigger] out@[j] == wanted[j],
        decreases len - base,
    {
        proof {
            assert((k + 1) * channels == k * channels + channels) by (nonlinear_arith);
            if len - base <= channels {
                lemma_block_index(len - 1, channels as int, k);
            } else {
                assert(k + 1 <= (len - 1) / (channels as int)) by (nonlinear_arith)
                    requires
                        channels >= 1,
                        (k + 1) * channels <= len - 1,
                ;
            }
        }
        let sample: u64 = if c < len - base {
            interleaved[base + c]
        } else {
            0
        };
        out.push_back(sample);
        if len - base <= channels {
            base = len;
        } else {
            base = base + channels;
        }
        proof {
            k = k + 1;
        }
    }
    assert(out@ =~= wanted);
    out
}

} // verus!
