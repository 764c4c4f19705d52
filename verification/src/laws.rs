//! Properties of the decode session and of the player that hold on every
//! input, stated over the models that the contracts use.

use crate::player::{
    advances, handles, loads, outputs, LoadError, OutputAction, Phase, PlayerAction,
    PlayerCommand, PlayerView, StreamRequest,
};
use crate::player::skips;
use crate::timebase::whole_seconds;
use crate::track::{
    frames_in, pull_step_spec, pulls, serves, AudioFile, DecodeAction, DecodeEvent,
    ProbeOutcome, SessionView, MINIMUM_FRAMES_IN_BUFFER_COUNT,
};
use vstd::arithmetic::div_mod::{lemma_div_is_ordered, lemma_div_multiples_vanish, lemma_small_mod};
use vstd::prelude::*;

verus! {

/// One operation on a decode session.
pub enum SessionOp {
    /// The samples of a decoded packet are queued.
    Enqueue(Seq<u64>),
    /// The session serves: the oldest ready frame, if there is one, is
    /// handed out and counted.
    Serve,
    /// One more frame is counted as played.
    CountFrame,
    /// The volume changes.
    SetVolume(u64),
    /// The session is repositioned to a number of seconds.
    Seek(u64),
}

/// The session after one operation.
pub open spec fn apply(s: SessionView, op: SessionOp) -> SessionView {
    match op {
        SessionOp::Enqueue(interleaved) => s.enqueue(interleaved),
        SessionOp::Serve => if s.buffered() > 0 {
            s.pop().counted()
        } else if s.finished() {
            s
        } else {
            s.counted()
        },
        SessionOp::CountFrame => s.counted(),
        SessionOp::SetVolume(volume) => s.with_volume(volume),
        SessionOp::Seek(seconds) => s.seek(seconds),
    }
}

/// The session after a sequence of operations, first to last.
pub open spec fn run(s: SessionView, ops: Seq<SessionOp>) -> SessionView
    decreases ops.len(),
{
    if ops.len() == 0 {
        s
    } else {
        apply(run(s, ops.drop_last()), ops.last())
    }
}

/// Every operation keeps the session well formed: there stays one queue per
/// channel, and all queues hold the same number of ready frames.
pub proof fn lemma_apply_keeps_wf(s: SessionView, op: SessionOp)
    requires
        s.wf(),
    ensures
        apply(s, op).wf(),
        apply(s, op).metadata == s.metadata,
{
    let t = apply(s, op);
    assert forall|c: int| 0 <= c < t.queues.len() implies (#[trigger] t.queues[c]).len()
        == t.queues[0].len() by {
        assert(s.queues[c].len() == s.queues[0].len());
    }
}

/// Queuing a decoded packet adds the same number of ready frames to every
/// channel queue: the frames that the packet spans.
pub proof fn lemma_enqueue_fills_queues_in_step(s: SessionView, interleaved: Seq<u64>)
    requires
        s.wf(),
    ensures
        s.enqueue(interleaved).wf(),
        forall|c: int|
            0 <= c < s.queues.len() ==> (#[trigger] s.enqueue(interleaved).queues[c]).len()
                == s.queues[c].len() + frames_in(
                interleaved.len(),
                s.metadata.channel_count as nat,
            ),
        s.enqueue(interleaved).time == s.time,
{
    lemma_apply_keeps_wf(s, SessionOp::Enqueue(interleaved));
}

/// Serving a frame takes exactly one sample, the oldest, off every channel
/// queue, and advances the played-frame counter by one.
pub proof fn lemma_pop_takes_one_from_every_queue(s: SessionView)
    requires
        s.wf(),
        s.buffered() > 0,
    ensures
        apply(s, SessionOp::Serve).wf(),
        apply(s, SessionOp::Serve).queues == s.pop().queues,
        forall|c: int|
            0 <= c < s.queues.len() ==> {
                &&& (#[trigger] s.pop().queues[c]).len() == s.queues[c].len() - 1
                &&& s.head_frame()[c] == s.queues[c][0]
                &&& s.pop().queues[c] == s.queues[c].subrange(1, s.queues[c].len() as int)
            },
        s.time < u64::MAX ==> apply(s, SessionOp::Serve).time == s.time + 1,
{
    lemma_apply_keeps_wf(s, SessionOp::Serve);
    assert forall|c: int| 0 <= c < s.queues.len() implies {
        &&& (#[trigger] s.pop().queues[c]).len() == s.queues[c].len() - 1
        &&& s.head_frame()[c] == s.queues[c][0]
        &&& s.pop().queues[c] == s.queues[c].subrange(1, s.queues[c].len() as int)
    } by {
        assert(s.queues[c].len() == s.queues[0].len());
    }
}

/// A refill tops the queues up by at most one packet: once a packet has been
/// decoded, or the stream has ended, or decoding has failed for good, the
/// pull is answered with a frame or with nothing, never with a request for
/// more. Only a packet of another stream and a malformed packet are passed
/// over, and they leave the session as it was.
pub proof fn lemma_refill_stops_after_one_packet(
    pre: SessionView,
    event: DecodeEvent,
    post: SessionView,
    action: DecodeAction,
)
    requires
        pull_step_spec(pre, event, post, action),
    ensures
        (event is Decoded || event is EndOfStream || event is Failed) ==> (action is Deliver
            || action is Empty),
        event is Malformed ==> action is ReadPacket && post == pre,
        event is Packet ==> post == pre && (action is DecodePacket <==> event->Packet_0
            == pre.metadata.track_id) && (action is ReadPacket <==> event->Packet_0
            != pre.metadata.track_id),
        event is Pull ==> (action is ReadPacket <==> pre.needs_refill()),
        (action is ReadPacket || action is DecodePacket) ==> post == pre,
{
}

/// Whatever happens to a session during its lifetime, it stays well formed,
/// its metadata stays what it was when the session was opened, and so does
/// the total duration that its status reports.
pub proof fn lemma_total_duration_is_fixed(s: SessionView, ops: Seq<SessionOp>)
    requires
        s.wf(),
    ensures
        run(s, ops).wf(),
        run(s, ops).metadata == s.metadata,
        run(s, ops).status().total_duration_secs == s.status().total_duration_secs,
        run(s, ops).status().total_frames == s.status().total_frames,
    decreases ops.len(),
{
    if ops.len() > 0 {
        lemma_total_duration_is_fixed(s, ops.drop_last());
        lemma_apply_keeps_wf(run(s, ops.drop_last()), ops.last());
    }
}

/// As long as the session is not repositioned, the played-frame counter never
/// goes back, whatever else happens.
pub proof fn lemma_played_frames_never_go_back(s: SessionView, ops: Seq<SessionOp>)
    requires
        forall|i: int| 0 <= i < ops.len() ==> !(#[trigger] ops[i] is Seek),
    ensures
        run(s, ops).time >= s.time,
        run(s, ops).status().played_frames >= s.status().played_frames,
    decreases ops.len(),
{
    if ops.len() > 0 {
        let front = ops.drop_last();
        assert forall|i: int| 0 <= i < front.len() implies !(#[trigger] front[i] is Seek) by {
            assert(front[i] == ops[i]);
        }
        lemma_played_frames_never_go_back(s, front);
        assert(!(ops[ops.len() - 1] is Seek));
    }
}

/// The seconds that a status reports are those of the counters it reports:
/// equal played-frame counters give equal played seconds.
pub proof fn lemma_played_secs_follow_counter(a: SessionView, b: SessionView)
    requires
        a.metadata == b.metadata,
        a.time == b.time,
    ensures
        a.status().played_secs == b.status().played_secs,
{
}

/// A pulled frame has exactly one sample per channel.
pub proof fn lemma_frame_has_one_sample_per_channel(s: SessionView)
    requires
        s.wf(),
    ensures
        s.head_frame().len() == s.metadata.channel_count,
{
}

/// Serving either hands out a frame with one sample per channel, or hands
/// out nothing and leaves the queues as they were. It never hands out part
/// of a frame. A frame that is handed out is counted: the played-frame
/// counter advances by one.
pub proof fn lemma_pull_is_whole_or_empty(pre: SessionView, post: SessionView, action: DecodeAction)
    requires
        pre.wf(),
        serves(pre, post, action),
    ensures
        action is Deliver || action is Empty,
        action is Deliver <==> pre.buffered() > 0,
        action is Deliver ==> action->Deliver_0.samples@.len() == pre.metadata.channel_count,
        action is Deliver && pre.time < u64::MAX ==> post.time == pre.time + 1,
        action is Empty ==> post.queues == pre.queues,
        post == apply(pre, SessionOp::Serve),
{
}

/// A pull asks for a packet exactly when fewer frames than the low-water
/// mark are ready and frames are still to be played, and then changes
/// nothing. Otherwise it asks for none: it hands out a frame and counts it,
/// or, the session having finished with nothing left, it hands out nothing
/// and changes nothing.
pub proof fn lemma_pull_refills_below_the_mark(
    pre: SessionView,
    post: SessionView,
    action: DecodeAction,
)
    requires
        pre.wf(),
        pulls(pre, post, action),
    ensures
        action is ReadPacket <==> (pre.queues[0].len() < MINIMUM_FRAMES_IN_BUFFER_COUNT
            && pre.time < pre.metadata.frames_count),
        action is ReadPacket ==> post == pre,
        !(action is DecodePacket),
        action is Deliver ==> post == pre.pop().counted() && action->Deliver_0.samples@
            == pre.head_frame(),
        action is Empty ==> post == pre && pre.finished() && pre.buffered() == 0,
{
}

/// A track whose stream ends early still comes to its end: with nothing
/// left to serve and frames still to play, serving counts the frame slot, so
/// that the counter reaches the total.
pub proof fn lemma_starved_pull_counts(pre: SessionView, post: SessionView, action: DecodeAction)
    requires
        pre.buffered() == 0,
        !pre.finished(),
        serves(pre, post, action),
    ensures
        action is Empty,
        post.time == pre.time + 1,
        post.queues == pre.queues,
{
}

/// Whole seconds do not go down when the timestamp goes up, as long as they
/// do not wrap.
pub proof fn lemma_whole_seconds_are_ordered(numer: u32, denom: u32, earlier: u64, later: u64)
    requires
        denom > 0,
        earlier <= later,
        (later * numer) / (denom as int) < 0x1_0000_0000_0000_0000,
    ensures
        whole_seconds(numer, denom, earlier) <= whole_seconds(numer, denom, later),
        whole_seconds(numer, denom, later) == (later * numer) / (denom as int),
{
    assert(earlier * numer <= later * numer) by (nonlinear_arith)
        requires
            earlier <= later,
    ;
    assert(0 <= earlier * numer) by (nonlinear_arith);
    lemma_div_is_ordered(earlier * numer, later * numer, denom as int);
    lemma_div_is_ordered(0, earlier * numer, denom as int);
    lemma_small_mod(((earlier * numer) / (denom as int)) as nat, 0x1_0000_0000_0000_0000);
    lemma_small_mod(((later * numer) / (denom as int)) as nat, 0x1_0000_0000_0000_0000);
}

/// Under a time base whose numerator is no larger than its denominator, the
/// whole seconds of a timestamp never exceed the timestamp, so they cannot
/// wrap.
pub proof fn lemma_short_ticks_never_wrap(numer: u32, denom: u32, ts: u64)
    requires
        0 < numer <= denom,
    ensures
        (ts * numer) / (denom as int) <= ts,
        (ts * numer) / (denom as int) < 0x1_0000_0000_0000_0000,
{
    assert(ts * numer <= denom * ts) by (nonlinear_arith)
        requires
            0 < numer <= denom,
            0 <= ts,
    ;
    lemma_div_is_ordered(ts * numer, denom * ts, denom as int);
    lemma_div_multiples_vanish(ts as int, denom as int);
}

/// As long as the session is not repositioned, the played seconds that its
/// status reports never go back, whatever else happens. This holds while the
/// seconds do not wrap at 64 bits.
pub proof fn lemma_played_secs_never_go_back(s: SessionView, ops: Seq<SessionOp>)
    requires
        s.wf(),
        forall|i: int| 0 <= i < ops.len() ==> !(#[trigger] ops[i] is Seek),
        (run(s, ops).time * s.metadata.time_base.spec_numer()) / (
        s.metadata.time_base.spec_denom() as int) < 0x1_0000_0000_0000_0000,
    ensures
        run(s, ops).status().played_secs >= s.status().played_secs,
{
    lemma_played_frames_never_go_back(s, ops);
    lemma_total_duration_is_fixed(s, ops);
    lemma_whole_seconds_are_ordered(
        s.metadata.time_base.spec_numer(),
        s.metadata.time_base.spec_denom(),
        s.time,
        run(s, ops).time,
    );
}

/// Under a time base whose numerator is no larger than its denominator, as
/// all time bases of one tick per sample are, the played seconds never go
/// back as long as the session is not repositioned.
pub proof fn lemma_played_secs_never_go_back_with_short_ticks(
    s: SessionView,
    ops: Seq<SessionOp>,
)
    requires
        s.wf(),
        forall|i: int| 0 <= i < ops.len() ==> !(#[trigger] ops[i] is Seek),
        s.metadata.time_base.spec_numer() <= s.metadata.time_base.spec_denom(),
    ensures
        run(s, ops).status().played_secs >= s.status().played_secs,
{
    lemma_short_ticks_never_wrap(
        s.metadata.time_base.spec_numer(),
        s.metadata.time_base.spec_denom(),
        run(s, ops).time,
    );
    lemma_played_secs_never_go_back(s, ops);
}

/// Counting a frame never lowers the played seconds, and leaves the queues,
/// the volume and the total duration alone.
pub proof fn lemma_counting_keeps_seconds_in_order(s: SessionView)
    requires
        s.wf(),
        (s.next_time() * s.metadata.time_base.spec_numer()) / (
        s.metadata.time_base.spec_denom() as int) < 0x1_0000_0000_0000_0000,
    ensures
        s.counted().status().played_secs >= s.status().played_secs,
        s.time < u64::MAX ==> s.counted().time == s.time + 1,
        s.counted().queues == s.queues,
        s.counted().volume == s.volume,
        s.counted().status().total_duration_secs == s.status().total_duration_secs,
{
    lemma_whole_seconds_are_ordered(
        s.metadata.time_base.spec_numer(),
        s.metadata.time_base.spec_denom(),
        s.time,
        s.next_time(),
    );
}

/// Under a time base of one tick per `1 / rate` seconds, seeking to
/// `seconds` puts the played-frame counter at `seconds * rate`, and the
/// played seconds are then `seconds`; the volume is as before.
pub proof fn lemma_seek_lands_on_the_second(s: SessionView, seconds: u64)
    requires
        s.wf(),
        s.metadata.time_base.spec_numer() == 1,
        seconds * s.metadata.time_base.spec_denom() < 0x1_0000_0000_0000_0000,
    ensures
        s.seek(seconds).time == seconds * s.metadata.time_base.spec_denom(),
        s.seek(seconds).status().played_secs == seconds,
        s.seek(seconds).volume == s.volume,
        s.seek(seconds).metadata == s.metadata,
{
    let rate = s.metadata.time_base.spec_denom() as int;
    lemma_small_mod((seconds * rate) as nat, 0x1_0000_0000_0000_0000);
    assert(seconds * rate == rate * seconds) by (nonlinear_arith);
    lemma_div_multiples_vanish(seconds as int, rate);
    assert((seconds * rate) * 1 == seconds * rate);
    lemma_small_mod(seconds as nat, 0x1_0000_0000_0000_0000);
}

/// Nothing that was queued before a seek survives it: the session after the
/// seek has no ready frame, and is the same whatever the queues held before.
/// Every sample served afterwards was therefore queued after the seek.
pub proof fn lemma_seek_drops_queued_samples(a: SessionView, b: SessionView, seconds: u64)
    requires
        a.wf(),
        b.wf(),
        a.metadata == b.metadata,
        a.volume == b.volume,
    ensures
        a.seek(seconds).wf(),
        a.seek(seconds).buffered() == 0,
        forall|c: int| 0 <= c < a.seek(seconds).queues.len() ==> (#[trigger] a.seek(
            seconds,
        ).queues[c]).len() == 0,
        a.seek(seconds) == b.seek(seconds),
{
    assert(a.seek(seconds).queues =~= b.seek(seconds).queues);
}

/// The frames served after a seek are drawn from what was queued after it:
/// queuing a packet on the repositioned session and pulling gives the first
/// frame of that packet.
pub proof fn lemma_first_frame_after_seek(s: SessionView, seconds: u64, interleaved: Seq<u64>)
    requires
        s.wf(),
        interleaved.len() > 0,
    ensures
        s.seek(seconds).enqueue(interleaved).buffered() > 0,
        forall|c: int|
            0 <= c < s.metadata.channel_count ==> #[trigger] s.seek(seconds).enqueue(
                interleaved,
            ).head_frame()[c] == (if c < interleaved.len() {
                interleaved[c]
            } else {
                0u64
            }),
{
    let t = s.seek(seconds).enqueue(interleaved);
    let channels = s.metadata.channel_count as nat;
    assert(t.queues[0] =~= crate::track::channel_samples(interleaved, channels, 0));
    assert forall|c: int| 0 <= c < s.metadata.channel_count implies #[trigger] t.head_frame()[c]
        == (if c < interleaved.len() {
        interleaved[c]
    } else {
        0u64
    }) by {
        assert(t.queues[c] =~= crate::track::channel_samples(interleaved, channels, c as nat));
        assert(0 * channels + c == c);
    }
}

/// A change of volume takes effect on the very next pulled frame and does
/// not touch the progress of playback: the frame is the one that would have
/// been served anyway, it carries the new volume, and the played-frame
/// counter and the queues end up as without the change.
pub proof fn lemma_volume_applies_to_next_frame(
    s: SessionView,
    volume: u64,
    post: SessionView,
    action: DecodeAction,
)
    requires
        s.wf(),
        serves(s.with_volume(volume), post, action),
    ensures
        action is Deliver ==> {
            &&& action->Deliver_0.volume == volume
            &&& action->Deliver_0.samples@ == s.head_frame()
        },
        action is Deliver <==> s.buffered() > 0,
        post.time == apply(s, SessionOp::Serve).time,
        post.queues == apply(s, SessionOp::Serve).queues,
        post.volume == volume,
{
}

/// A command keeps the player well formed: a loaded session stays well
/// formed and carries the master volume, and there is no output stream
/// without a loaded session.
pub proof fn lemma_command_keeps_wf(
    pre: PlayerView,
    command: PlayerCommand,
    post: PlayerView,
    action: PlayerAction,
)
    requires
        pre.wf(),
        handles(pre, command, post, action),
    ensures
        post.wf(),
{
    match command {
        PlayerCommand::Seek(seconds) => {
            if pre.current is Some {
                lemma_apply_keeps_wf(pre.current->Some_0, SessionOp::Seek(seconds as u64));
            }
        },
        _ => {},
    }
}

/// A step of the output callback keeps the player well formed, and changes
/// nothing but the loaded session.
pub proof fn lemma_output_keeps_wf(
    pre: PlayerView,
    event: DecodeEvent,
    post: PlayerView,
    action: OutputAction,
)
    requires
        pre.wf(),
        outputs(pre, event, post, action),
    ensures
        post.wf(),
        post.queue == pre.queue,
        post.volume == pre.volume,
        post.playing == pre.playing,
        post.streaming == pre.streaming,
        post.phase() == pre.phase(),
        pre.current is None ==> action is Silence,
{
    if pre.current is Some && !(event is Pull && pre.current->Some_0.finished()) {
        let session = pre.current->Some_0;
        if event is Decoded {
            lemma_apply_keeps_wf(session, SessionOp::Enqueue(event->Decoded_0@));
            lemma_apply_keeps_wf(session.enqueue(event->Decoded_0@), SessionOp::Serve);
        } else {
            lemma_apply_keeps_wf(session, SessionOp::Serve);
        }
    }
}

/// The phases follow the commands: pausing a playing track leaves it loaded
/// and paused at its position, resuming a paused track leaves it loaded and
/// playing, a tick changes nothing, queuing changes no phase, and playing a
/// track at once or skipping gives the loaded track up until the next one
/// has been opened.
pub proof fn lemma_phases_follow_commands(
    pre: PlayerView,
    command: PlayerCommand,
    post: PlayerView,
    action: PlayerAction,
)
    requires
        handles(pre, command, post, action),
    ensures
        command is Pause && pre.phase() == Phase::LoadedPlaying ==> post.phase()
            == Phase::LoadedPaused && post.current == pre.current,
        command is Resume && pre.phase() == Phase::LoadedPaused ==> post.phase()
            == Phase::LoadedPlaying && post.current == pre.current,
        command is Tick ==> post == pre,
        command is Tick && pre.phase() != Phase::LoadedPlaying ==> action is Nothing,
        command is Tick && pre.phase() == Phase::LoadedPlaying ==> action is Emit,
        command is Queue ==> post.phase() == pre.phase() && action is Nothing,
        (command is PlayNow || command is Skip) ==> post.phase() == Phase::Idle
            && !post.streaming,
        command is PlayNow ==> post.playing && post.queue.len() == 0,
        command is Seek && pre.phase() == Phase::Idle ==> post == pre && action is Nothing,
{
}

/// Loading a track ends in one of two ways: the track is loaded, paused or
/// playing as the playing flag says, with an output stream; or the player is
/// idle without one, and the pending tracks are as they were.
pub proof fn lemma_load_ends_loaded_or_idle(
    pre: PlayerView,
    probe: ProbeOutcome,
    supported: Seq<u16>,
    post: PlayerView,
    result: Result<StreamRequest, LoadError>,
)
    requires
        pre.wf(),
        loads(pre, probe, supported, post, result),
    ensures
        post.wf(),
        post.queue == pre.queue,
        post.playing == pre.playing,
        post.volume == pre.volume,
        result is Ok ==> post.streaming && post.phase() == (if pre.playing {
            Phase::LoadedPlaying
        } else {
            Phase::LoadedPaused
        }) && result->Ok_0.start == pre.playing && post.current->Some_0.time == 0,
        result is Err ==> !post.streaming && post.phase() == Phase::Idle,
{
}

/// A seek stays within the loaded track exactly when the seconds asked for
/// are less than its total duration, which need not be a whole number of
/// seconds: the track is then repositioned, and the pending tracks and the
/// playing flag stay as they are.
pub proof fn lemma_seek_within_repositions(
    pre: PlayerView,
    seconds: usize,
    post: PlayerView,
    action: PlayerAction,
)
    requires
        pre.current is Some,
        seconds * pre.current->Some_0.metadata.time_base.spec_denom()
            < pre.current->Some_0.metadata.frames_count
            * pre.current->Some_0.metadata.time_base.spec_numer(),
        handles(pre, PlayerCommand::Seek(seconds), post, action),
    ensures
        action is SeekReader,
        action->SeekReader_0 == seconds,
        post.current == Some(pre.current->Some_0.seek(seconds as u64)),
        post.queue == pre.queue,
        post.playing == pre.playing,
        post.streaming == pre.streaming,
{
}

/// Skipping with nothing queued leaves the player idle and not playing, with
/// no session and no output stream; a tick then emits nothing.
pub proof fn lemma_skip_with_nothing_queued_stops(
    pre: PlayerView,
    post: PlayerView,
    action: PlayerAction,
    after: PlayerView,
    tick: PlayerAction,
)
    requires
        pre.queue.len() == 0,
        handles(pre, PlayerCommand::Skip, post, action),
        handles(post, PlayerCommand::Tick, after, tick),
    ensures
        action is StopStream,
        post.phase() == Phase::Idle,
        post.current is None,
        !post.streaming,
        !post.playing,
        tick is Nothing,
        after == post,
{
}

/// Skipping with a track queued opens the track queued last and keeps the
/// playing flag.
pub proof fn lemma_skip_advances(pre: PlayerView, post: PlayerView, action: PlayerAction)
    requires
        pre.queue.len() > 0,
        skips(pre, post, action),
    ensures
        advances(pre, post, action),
        post.playing == pre.playing,
{
}

/// Seeking to or past the end of the loaded track is the same as skipping:
/// both commands lead to the same state and ask for the same action.
pub proof fn lemma_seek_past_end_is_skip(
    pre: PlayerView,
    seconds: usize,
    post: PlayerView,
    action: PlayerAction,
)
    requires
        pre.current is Some,
        !pre.current->Some_0.within(seconds as u64),
    ensures
        handles(pre, PlayerCommand::Seek(seconds), post, action) <==> handles(
            pre,
            PlayerCommand::Skip,
            post,
            action,
        ),
{
}

/// Pending tracks are played last in, first out: after queuing `first` and
/// then `second`, the next skip opens `second` and the skip after it opens
/// `first`, and the tracks that were pending before are pending again.
pub proof fn lemma_queue_is_a_stack(
    pre: PlayerView,
    first: AudioFile,
    second: AudioFile,
    s1: PlayerView,
    s2: PlayerView,
    s3: PlayerView,
    s4: PlayerView,
    a1: PlayerAction,
    a2: PlayerAction,
    a3: PlayerAction,
    a4: PlayerAction,
)
    requires
        handles(pre, PlayerCommand::Queue(first), s1, a1),
        handles(s1, PlayerCommand::Queue(second), s2, a2),
        handles(s2, PlayerCommand::Skip, s3, a3),
        handles(s3, PlayerCommand::Skip, s4, a4),
    ensures
        a3 is OpenTrack && a3->OpenTrack_0@ == second@,
        a4 is OpenTrack && a4->OpenTrack_0@ == first@,
        s4.queue == pre.queue,
{
    assert(s2.queue.drop_last() =~= s1.queue);
    assert(s1.queue.drop_last() =~= pre.queue);
}

/// Advancing always takes the track that was queued last and leaves the
/// earlier ones pending in their order.
pub proof fn lemma_advance_takes_last_queued(pre: PlayerView, post: PlayerView, action: PlayerAction)
    requires
        advances(pre, post, action),
        pre.queue.len() > 0,
    ensures
        action is OpenTrack,
        action->OpenTrack_0@ == pre.queue[pre.queue.len() - 1],
        post.queue == pre.queue.subrange(0, pre.queue.len() - 1),
        post.current is None,
        !post.streaming,
{
}

} // verus!
