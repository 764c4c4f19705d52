//! The player state and its control state machine: every transition is a
//! function from the state and one command or report to the next state and
//! the action that the surroundings must carry out.

use crate::stream::{get_config, StreamConfig, StreamError};
use crate::track::{
    fresh_session, probe_error, pull_step_spec, AudioFile, DecodeAction, DecodeError, DecodeEvent,
    ProbeOutcome, SessionView, TrackHandle, TrackStatus,
};
use crate::stream::{first_match, has_match};
use vstd::prelude::*;

verus! {

/// Master volume of a new player: the bit pattern of the double 0.1.
pub const DEFAULT_VOLUME: u64 = 0x3FB9_9999_9999_999A;

/// A control message. Commands are handled one at a time, in the order in
/// which they were received.
#[derive(Debug)]
pub enum PlayerCommand {
    Queue(AudioFile),
    PlayNow(AudioFile),
    Resume,
    Skip,
    Pause,
    Seek(usize),
    Tick,
}

/// What the surroundings must do after a command has been handled.
#[derive(Debug)]
pub enum PlayerAction {
    /// Nothing.
    Nothing,
    /// Tear down the output stream if there is one, probe this source and
    /// report the outcome with `track_probed`.
    OpenTrack(AudioFile),
    /// Tear down the output stream if there is one: the player is idle.
    StopStream,
    /// Let the output stream pull samples.
    StartStream,
    /// Stop the output stream from pulling samples; the session stays.
    PauseStream,
    /// Ask the demultiplexer to seek accurately to this many seconds.
    SeekReader(u64),
    /// Broadcast this status to the observer.
    Emit(TrackStatus),
}

/// Why a track could not be loaded.
#[derive(Clone, Copy, Debug, PartialEq, Eq, Structural)]
pub enum LoadError {
    Source(DecodeError),
    Stream(StreamError),
}

/// The output stream to build for the track that was just loaded.
#[derive(Clone, Copy, Debug, PartialEq, Eq, Structural)]
pub struct StreamRequest {
    pub config: StreamConfig,
    /// Whether playback starts as soon as the stream exists.
    pub start: bool,
}

/// What the audio output callback does for one frame slot.
#[derive(Debug)]
pub enum OutputAction {
    /// No track is loaded: leave the rest of the buffer untouched.
    Silence,
    /// The track has finished: send a `Skip` command and stop filling.
    RequestSkip,
    /// The answer of the loaded session to the event.
    Session(DecodeAction),
}

/// The three phases of the player.
#[derive(Clone, Copy, Debug, PartialEq, Eq, Structural)]
pub enum Phase {
    Idle,
    LoadedPaused,
    LoadedPlaying,
}

/// Mathematical model of the player state.
pub struct PlayerView {
    /// The session of the loaded track, if any.
    pub current: Option<SessionView>,
    /// Paths of the pending tracks, in the order in which they were queued.
    pub queue: Seq<Seq<char>>,
    /// Master volume.
    pub volume: u64,
    pub playing: bool,
    /// Whether an output stream exists.
    pub streaming: bool,
}

impl PlayerView {
    /// A loaded session is well formed and carries the master volume, and an
    /// output stream exists only while a session is loaded.
    pub open spec fn wf(self) -> bool {
        &&& self.current is Some ==> self.current->Some_0.wf() && self.current->Some_0.volume
            == self.volume
        &&& self.streaming ==> self.current is Some
    }

    pub open spec fn phase(self) -> Phase {
        if self.current is None {
            Phase::Idle
        } else if self.playing {
            Phase::LoadedPlaying
        } else {
            Phase::LoadedPaused
        }
    }

    /// The player with no session and no output stream.
    pub open spec fn idle(self) -> PlayerView {
        PlayerView { current: None, streaming: false, ..self }
    }
}

/// Advancing to the next track: the track queued last is taken and must be
/// opened; with nothing queued the player goes idle. Either way the loaded
/// session and the output stream are given up.
pub open spec fn advances(pre: PlayerView, post: PlayerView, action: PlayerAction) -> bool {
    if pre.queue.len() > 0 {
        &&& post == PlayerView { queue: pre.queue.drop_last(), ..pre.idle() }
        &&& action is OpenTrack
        &&& action->OpenTrack_0@ == pre.queue.last()
    } else {
        &&& post == pre.idle()
        &&& action is StopStream
    }
}

/// Skipping: with a track queued the player advances to it and the playing
/// flag stays as it is; with nothing queued the player goes idle and stops
/// playing.
pub open spec fn skips(pre: PlayerView, post: PlayerView, action: PlayerAction) -> bool {
    if pre.queue.len() > 0 {
        advances(pre, post, action)
    } else {
        &&& post == PlayerView { playing: false, ..pre.idle() }
        &&& action is StopStream
    }
}

/// The effect of one command on the player in state `pre`: the state `post`
/// it leads to and the action it asks for.
pub open spec fn handles(
    pre: PlayerView,
    command: PlayerCommand,
    post: PlayerView,
    action: PlayerAction,
) -> bool {
    match command {
        PlayerCommand::Queue(file) => {
            &&& post == PlayerView { queue: pre.queue.push(file@), ..pre }
            &&& action is Nothing
        },
        PlayerCommand::PlayNow(file) => {
            &&& post == PlayerView { queue: Seq::empty(), playing: true, ..pre.idle() }
            &&& action is OpenTrack
            &&& action->OpenTrack_0@ == file@
        },
        PlayerCommand::Skip => skips(pre, post, action),
        PlayerCommand::Pause => {
            &&& post == PlayerView { playing: false, ..pre }
            &&& if pre.streaming {
                action is PauseStream
            } else {
                action is Nothing
            }
        },
        PlayerCommand::Resume => {
            &&& post == PlayerView { playing: true, ..pre }
            &&& if pre.streaming {
                action is StartStream
            } else {
                action is Nothing
            }
        },
        PlayerCommand::Seek(seconds) => match pre.current {
            None => post == pre && action is Nothing,
            Some(session) => if session.within(seconds as u64) {
                &&& post == PlayerView { current: Some(session.seek(seconds as u64)), ..pre }
                &&& action is SeekReader
                &&& action->SeekReader_0 == seconds as u64
            } else {
                skips(pre, post, action)
            },
        },
        PlayerCommand::Tick => {
            &&& post == pre
            &&& if pre.playing && pre.current is Some {
                action is Emit && action->Emit_0 == pre.current->Some_0.status()
            } else {
                action is Nothing
            }
        },
    }
}

/// The effect of a probe report: a source that cannot be opened, or a track
/// for which the device has no configuration, leaves the player idle;
/// otherwise the fresh session is loaded with the master volume and the
/// stream to build is the first matching configuration, started if the
/// playing flag is set.
pub open spec fn loads(
    pre: PlayerView,
    probe: ProbeOutcome,
    supported: Seq<u16>,
    post: PlayerView,
    result: Result<StreamRequest, LoadError>,
) -> bool {
    match probe_error(probe) {
        Some(error) => post == pre.idle() && result == Err::<StreamRequest, LoadError>(
            LoadError::Source(error),
        ),
        None => {
            let params = probe->Probed_0;
            let channels = params.channels->Some_0;
            if has_match(supported, channels) {
                &&& result is Ok
                &&& first_match(supported, channels, result->Ok_0.config.index as int)
                &&& result->Ok_0.config.channels as int == channels as int
                &&& result->Ok_0.config.sample_rate == params.sample_rate->Some_0
                &&& result->Ok_0.start == pre.playing
                &&& post.current is Some
                &&& fresh_session(params, pre.volume, post.current->Some_0)
                &&& post == PlayerView { current: post.current, streaming: true, ..pre }
            } else {
                post == pre.idle() && result == Err::<StreamRequest, LoadError>(
                    LoadError::Stream(StreamError::NoMatchingConfig),
                )
            }
        },
    }
}

/// The effect of one step of the output callback.
pub open spec fn outputs(
    pre: PlayerView,
    event: DecodeEvent,
    post: PlayerView,
    action: OutputAction,
) -> bool {
    match pre.current {
        None => post == pre && action is Silence,
        Some(session) => if event is Pull && session.finished() {
            post == pre && action is RequestSkip
        } else {
            &&& action is Session
            &&& post.current is Some
            &&& pull_step_spec(session, event, post.current->Some_0, action->Session_0)
            &&& post == PlayerView { current: post.current, ..pre }
        },
    }
}

/// The single source of truth of the player: the loaded session, the pending
/// tracks, the master volume and the playing flag.
pub struct PlayerHandle {
    current_track: Option<TrackHandle>,
    audio_queue: Vec<AudioFile>,
    volume: u64,
    is_playing: bool,
    streaming: bool,
}

impl View for PlayerHandle {
    type V = PlayerView;

    closed spec fn view(&self) -> PlayerView {
        PlayerView {
            current: match self.current_track {
                Some(handle) => Some(handle@),
                None => None,
            },
            queue: Seq::new(self.audio_queue@.len(), |i: int| self.audio_queue@[i]@),
            volume: self.volume,
            playing: self.is_playing,
            streaming: self.streaming,
        }
    }
}

impl PlayerHandle {
    pub open spec fn wf(&self) -> bool {
        self@.wf()
    }

    /// An idle, paused player with nothing queued and the default volume.
    pub fn new() -> (player: Self)
        ensures
            player.wf(),
            player@ == (PlayerView {
                current: None,
                queue: Seq::empty(),
                volume: DEFAULT_VOLUME,
                playing: false,
                streaming: false,
            }),
    {
        let player = PlayerHandle {
            current_track: None,
            audio_queue: Vec::new(),
            volume: DEFAULT_VOLUME,
            is_playing: false,
            streaming: false,
        };
        assert(player@.queue =~= Seq::empty());
        player
    }

    pub fn get_track_handle(&self) -> (handle: Option<&TrackHandle>)
        ensures
            handle is Some <==> self@.current is Some,
            handle is Some ==> handle->Some_0@ == self@.current->Some_0,
    {
        self.current_track.as_ref()
    }

    /// The phase that the player is in.
    pub fn phase(&self) -> (phase: Phase)
        ensures
            phase == self@.phase(),
    {
        if self.current_track.is_none() {
            Phase::Idle
        } else if self.is_playing {
            Phase::LoadedPlaying
        } else {
            Phase::LoadedPaused
        }
    }

    pub fn is_playing(&self) -> (playing: bool)
        ensures
            playing == self@.playing,
    {
        self.is_playing
    }

    pub fn get_volume(&self) -> (volume: u64)
        ensures
            volume == self@.volume,
    {
        self.volume
    }

    /// Number of pending tracks.
    pub fn queue_len(&self) -> (n: usize)
        ensures
            n == self@.queue.len(),
    {
        self.audio_queue.len()
    }

    pub fn clear_queue(&mut self)
        ensures
            final(self)@ == (PlayerView { queue: Seq::empty(), ..old(self)@ }),
    {
        self.audio_queue.clear();
        assert(self@.queue =~= Seq::empty());
    }

    /// Appends a track to the pending tracks.
    pub fn enqueue_track(&mut self, track: AudioFile)
        ensures
            final(self)@ == (PlayerView { queue: old(self)@.queue.push(track@), ..old(self)@ }),
    {
        self.audio_queue.push(track);
        assert(self@.queue =~= old(self)@.queue.push(track@));
    }

    /// Sets the master volume and pushes it into the loaded session, so that
    /// the very next pulled frame carries it.
    pub fn change_volume(&mut self, volume: u64)
        requires
            old(self).wf(),
        ensures
            final(self).wf(),
            final(self)@ == (PlayerView {
                volume,
                current: match old(self)@.current {
                    Some(session) => Some(session.with_volume(volume)),
                    None => None,
                },
                ..old(self)@
            }),
    {
        self.volume = volume;
        match &mut self.current_track {
            Some(handle) => {
                handle.update_volume(volume);
            },
            None => {},
        }
    }

    /// Advances to the next track: takes the track that was queued last and
    /// asks for it to be opened, or goes idle when nothing is queued.
    pub fn next_track(&mut self) -> (action: PlayerAction)
        ensures
            final(self).wf(),
            advances(old(self)@, final(self)@, action),
    {
        self.current_track = None;
        self.streaming = false;
        match self.audio_queue.pop() {
            Some(track) => {
                assert(self@.queue =~= old(self)@.queue.drop_last());
                PlayerAction::OpenTrack(track)
            },
            None => {
                assert(self@.queue =~= old(self)@.queue);
                PlayerAction::StopStream
            },
        }
    }

    /// Skips the loaded track: advances to the track queued last, or, with
    /// nothing queued, goes idle and stops playing.
    fn skip(&mut self) -> (action: PlayerAction)
        ensures
            final(self).wf(),
            skips(old(self)@, final(self)@, action),
    {
        if self.audio_queue.len() == 0 {
            self.is_playing = false;
        }
        self.next_track()
    }

    /// Handles one command.
    pub fn handle_command(&mut self, command: PlayerCommand) -> (action: PlayerAction)
        requires
            old(self).wf(),
        ensures
            final(self).wf(),
            handles(old(self)@, command, final(self)@, action),
    {
        match command {
            PlayerCommand::Queue(file) => {
                self.enqueue_track(file);
                PlayerAction::Nothing
            },
            PlayerCommand::PlayNow(file) => {
                let ghost path = file@;
                self.clear_queue();
                self.enqueue_track(file);
                self.is_playing = true;
                let action = self.next_track();
                assert(Seq::<Seq<char>>::empty().push(path).drop_last() =~= Seq::<Seq<char>>::empty());
                assert(Seq::<Seq<char>>::empty().push(path).last() == path);
                action
            },
            PlayerCommand::Skip => self.skip(),
            PlayerCommand::Pause => {
                self.is_playing = false;
                if self.streaming {
                    PlayerAction::PauseStream
                } else {
                    PlayerAction::Nothing
                }
            },
            PlayerCommand::Resume => {
                self.is_playing = true;
                if self.streaming {
                    PlayerAction::StartStream
                } else {
                    PlayerAction::Nothing
                }
            },
            PlayerCommand::Seek(seconds) => {
                let within = match &self.current_track {
                    Some(handle) => Some(handle.is_within(seconds)),
                    None => None,
                };
                match within {
                    None => PlayerAction::Nothing,
                    Some(true) => {
                        match &mut self.current_track {
                            Some(handle) => {
                                handle.seek(seconds);
                            },
                            None => {},
                        }
                        PlayerAction::SeekReader(seconds as u64)
                    },
                    Some(false) => self.skip(),
                }
            },
            PlayerCommand::Tick => {
                if !self.is_playing {
                    return PlayerAction::Nothing;
                }
                match &self.current_track {
                    Some(handle) => PlayerAction::Emit(handle.get_status()),
                    None => PlayerAction::Nothing,
                }
            },
        }
    }

    /// Takes the report on the source that `OpenTrack` asked to be probed,
    /// together with the channel counts of the configurations that the output
    /// device offers, in the device's order.
    pub fn track_probed(&mut self, probe: ProbeOutcome, supported: &Vec<u16>) -> (result: Result<
        StreamRequest,
        LoadError,
    >)
        requires
            old(self).wf(),
        ensures
            final(self).wf(),
            loads(old(self)@, probe, supported@, final(self)@, result),
    {
        self.current_track = None;
        self.streaming = false;
        let handle = match TrackHandle::open(probe, self.volume) {
            Ok(handle) => handle,
            Err(error) => { return Err(LoadError::Source(error)); },
        };
        let metadata = handle.get_metadata();
        match get_config(supported, metadata.channel_count, metadata.sample_rate) {
            Ok(config) => {
                self.current_track = Some(handle);
                self.streaming = true;
                Ok(StreamRequest { config, start: self.is_playing })
            },
            Err(error) => Err(LoadError::Stream(error)),
        }
    }

    /// Takes the report that the loaded track cannot be streamed any
    /// further: its output stream could not be built or has broken down, or
    /// its source could not be repositioned. The track is given up and the
    /// player goes idle.
    pub fn stream_failed(&mut self)
        ensures
            final(self).wf(),
            final(self)@ == old(self)@.idle(),
    {
        self.current_track = None;
        self.streaming = false;
    }

    /// One step of the output callback for one frame slot: without a track
    /// there is silence, a finished track asks for a skip, and otherwise the
    /// loaded session answers the event.
    pub fn output_step(&mut self, event: DecodeEvent) -> (action: OutputAction)
        requires
            old(self).wf(),
        ensures
            final(self).wf(),
            outputs(old(self)@, event, final(self)@, action),
    {
        match &mut self.current_track {
            None => OutputAction::Silence,
            Some(handle) => {
                let at_pull = match &event {
                    DecodeEvent::Pull => true,
                    _ => false,
                };
                if at_pull && handle.has_finished() {
                    OutputAction::RequestSkip
                } else {
                    OutputAction::Session(handle.pull_step(event))
                }
            },
        }
    }
}

} // verus!
