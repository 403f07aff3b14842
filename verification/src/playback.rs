use vstd::prelude::*;

verus! {

/// Timestamp value that marks "no timestamp" in decoded streams.
pub const NO_TIMESTAMP: i64 = i64::MIN;

/// Most frames decoded in one tick when playback has fallen behind.
pub const MAX_FRAMES_PER_TICK: usize = 4;

/// `value`, unless it marks a missing timestamp.
pub fn non_nopts(value: i64) -> (r: Option<i64>)
    ensures
        r == (if value == NO_TIMESTAMP {
            None
        } else {
            Some(value)
        }),
{
    if value == NO_TIMESTAMP {
        None
    } else {
        Some(value)
    }
}

/// `value` as a duration, when it is positive.
pub fn valid_duration_us(value: i64) -> (r: Option<i64>)
    ensures
        r == (if value > 0 {
            Some(value)
        } else {
            None
        }),
{
    if value > 0 {
        Some(value)
    } else {
        None
    }
}

/// `a - b` held within the range of `i64`.
pub open spec fn sat_sub_i64(a: i64, b: i64) -> i64 {
    if a - b > i64::MAX {
        i64::MAX
    } else if a - b < i64::MIN {
        i64::MIN
    } else {
        (a - b) as i64
    }
}

/// `a + b` held within the range of `i64`.
pub open spec fn sat_add_i64(a: i64, b: i64) -> i64 {
    if a + b > i64::MAX {
        i64::MAX
    } else if a + b < i64::MIN {
        i64::MIN
    } else {
        (a + b) as i64
    }
}

/// `a + b` held within the range of `u64`.
pub open spec fn sat_add_u64(a: u64, b: u64) -> u64 {
    if a + b > u64::MAX {
        u64::MAX
    } else {
        (a + b) as u64
    }
}

/// `a - b`, or zero when `b` is larger.
pub open spec fn sat_sub_u64(a: u64, b: u64) -> u64 {
    if a >= b {
        (a - b) as u64
    } else {
        0
    }
}

/// `a + b` held within the range of `i64`.
pub fn saturating_add_i64(a: i64, b: i64) -> (r: i64)
    ensures
        r == sat_add_i64(a, b),
{
    let s: i128 = (a as i128) + (b as i128);
    if s > (i64::MAX as i128) {
        i64::MAX
    } else if s < (i64::MIN as i128) {
        i64::MIN
    } else {
        s as i64
    }
}

/// `a - b` held within the range of `i64`.
pub fn saturating_sub_i64(a: i64, b: i64) -> (r: i64)
    ensures
        r == sat_sub_i64(a, b),
{
    let s: i128 = (a as i128) - (b as i128);
    if s > (i64::MAX as i128) {
        i64::MAX
    } else if s < (i64::MIN as i128) {
        i64::MIN
    } else {
        s as i64
    }
}

/// A playback position within a clip of the given duration: never negative and, when the
/// duration is known, never past it.
pub open spec fn clamp_position(relative: i64, duration: Option<i64>) -> i64 {
    let non_negative = if relative < 0 {
        0
    } else {
        relative
    };
    match duration {
        Some(d) => if non_negative > d {
            d
        } else {
            non_negative
        },
        None => non_negative,
    }
}

/// What the decoder answered when asked for a frame.
#[derive(Debug, Clone, Copy, PartialEq, Eq, Structural)]
pub enum ReceiveOutcome {
    /// A frame is ready.
    Frame,
    /// The decoder needs more input first.
    Again,
    /// The decoder has returned every frame.
    EndOfStream,
    /// The decoder failed.
    Failed,
}

/// What the decoder answered when given input (a packet, or the end of input).
#[derive(Debug, Clone, Copy, PartialEq, Eq, Structural)]
pub enum SendOutcome {
    /// The input was taken.
    Accepted,
    /// The decoder cannot take input until frames are drained.
    Again,
    /// The decoder failed.
    Failed,
}

/// The next move of a frame decode after the decoder's answer to a frame request.
#[derive(Debug, Clone, Copy, PartialEq, Eq, Structural)]
pub enum DecodeStep {
    /// Show the frame that is ready; the decode is done.
    Publish,
    /// Give the decoder more input, then ask again.
    Feed,
    /// No more frames: stay on the last one.
    Finish,
    /// Report the decoder's failure.
    Fail,
}

/// Which input to give the decoder.
#[derive(Debug, Clone, Copy, PartialEq, Eq, Structural)]
pub enum InputStep {
    /// Send the held packet, or the next packet of the stream.
    SendPacket,
    /// Tell the decoder that input has ended.
    SendEof,
    /// Input has ended and was already signalled: stay on the last frame.
    Finish,
}

/// The next move after giving the decoder input.
#[derive(Debug, Clone, Copy, PartialEq, Eq, Structural)]
pub enum FeedStep {
    /// Ask the decoder for a frame again.
    Continue,
    /// Keep the packet for a later attempt and ask the decoder for a frame again.
    HoldPacket,
    /// Report the decoder's failure.
    Fail,
}

/// The next move after a play/pause toggle.
#[derive(Debug, Clone, Copy, PartialEq, Eq, Structural)]
pub enum ToggleOutcome {
    Paused,
    Resumed,
    /// Playback had reached the end: seek to the start, then call
    /// [`PlaybackState::resume`].
    RestartThenResume,
}

/// The timing and transport state of a video player: where playback stands, whether it
/// runs, and how much time is owed to decoding. Times are nanoseconds on one monotonic
/// clock; positions are microseconds from the start of the stream.
pub struct PlaybackState {
    stream_start_us: i64,
    duration_us: Option<i64>,
    frame_interval_ns: u64,
    last_tick_ns: u64,
    accumulator_ns: u64,
    playing: bool,
    finished: bool,
    position_us: i64,
    eof_sent: bool,
}

/// The content of a [`PlaybackState`].
pub struct PlaybackView {
    pub stream_start_us: i64,
    pub duration_us: Option<i64>,
    pub frame_interval_ns: u64,
    pub last_tick_ns: u64,
    pub accumulator_ns: u64,
    pub playing: bool,
    pub finished: bool,
    pub position_us: i64,
    pub eof_sent: bool,
}

impl View for PlaybackState {
    type V = PlaybackView;

    closed spec fn view(&self) -> PlaybackView {
        PlaybackView {
            stream_start_us: self.stream_start_us,
            duration_us: self.duration_us,
            frame_interval_ns: self.frame_interval_ns,
            last_tick_ns: self.last_tick_ns,
            accumulator_ns: self.accumulator_ns,
            playing: self.playing,
            finished: self.finished,
            position_us: self.position_us,
            eof_sent: self.eof_sent,
        }
    }
}

/// What every playback state keeps: a known duration is positive and the position lies
/// within the clip.
pub open spec fn playback_wf(p: PlaybackView) -> bool {
    &&& (p.duration_us matches Some(d) ==> d > 0 && p.position_us <= d)
    &&& p.position_us >= 0
}

/// Pause or resume at `now_ns`: running playback pauses; paused playback resumes, unless
/// it reached the end, where it first needs a seek to the start and stays as it is.
pub open spec fn toggle_spec(p: PlaybackView, now_ns: u64) -> (ToggleOutcome, PlaybackView) {
    if p.playing {
        (ToggleOutcome::Paused, PlaybackView { playing: false, last_tick_ns: now_ns, accumulator_ns: 0, ..p })
    } else if p.finished {
        (ToggleOutcome::RestartThenResume, p)
    } else {
        (ToggleOutcome::Resumed, PlaybackView { playing: true, last_tick_ns: now_ns, accumulator_ns: 0, ..p })
    }
}

/// The start of a tick at `now_ns`: running playback owes the time since the last tick
/// to decoding; paused playback only notes the time.
pub open spec fn begin_tick_spec(p: PlaybackView, now_ns: u64) -> PlaybackView {
    if p.playing {
        PlaybackView {
            last_tick_ns: now_ns,
            accumulator_ns: sat_add_u64(p.accumulator_ns, sat_sub_u64(now_ns, p.last_tick_ns)),
            ..p
        }
    } else {
        PlaybackView { last_tick_ns: now_ns, ..p }
    }
}

/// Whether another frame is due in a tick that has decoded `decoded` frames: playback
/// runs, a whole frame interval is owed, and the tick has not reached its frame limit.
pub open spec fn frame_due_spec(p: PlaybackView, decoded: int) -> bool {
    p.playing && p.accumulator_ns >= p.frame_interval_ns && decoded < MAX_FRAMES_PER_TICK
}

/// One frame interval of the time owed to decoding paid.
pub open spec fn frame_advanced_spec(p: PlaybackView) -> PlaybackView {
    PlaybackView { accumulator_ns: sat_sub_u64(p.accumulator_ns, p.frame_interval_ns), ..p }
}

/// The state after `n` frames of one tick have been paid.
pub open spec fn advance_frames(p: PlaybackView, n: nat) -> PlaybackView
    decreases n,
{
    if n == 0 {
        p
    } else {
        frame_advanced_spec(advance_frames(p, (n - 1) as nat))
    }
}

/// Playback held on the last frame at `now_ns`: the position moves to the end of a clip
/// of known length, and playback stops, marked finished.
pub open spec fn finish_spec(p: PlaybackView, now_ns: u64) -> PlaybackView {
    PlaybackView {
        position_us: match p.duration_us {
            Some(d) => d,
            None => p.position_us,
        },
        playing: false,
        finished: true,
        accumulator_ns: 0,
        eof_sent: false,
        last_tick_ns: now_ns,
        ..p
    }
}

impl PlaybackState {
    /// Playback of a stream starting at `stream_start_us`, playing from its start.
    pub fn new(stream_start_us: i64, duration_us: Option<i64>, frame_interval_ns: u64, now_ns: u64) -> (r: Self)
        requires
            duration_us matches Some(d) ==> d > 0,
        ensures
            r@ == (PlaybackView {
                stream_start_us,
                duration_us,
                frame_interval_ns,
                last_tick_ns: now_ns,
                accumulator_ns: 0,
                playing: true,
                finished: false,
                position_us: 0,
                eof_sent: false,
            }),
            playback_wf(r@),
    {
        PlaybackState {
            stream_start_us,
            duration_us,
            frame_interval_ns,
            last_tick_ns: now_ns,
            accumulator_ns: 0,
            playing: true,
            finished: false,
            position_us: 0,
            eof_sent: false,
        }
    }

    /// Whether playback runs.
    pub fn is_playing(&self) -> (r: bool)
        ensures
            r == self@.playing,
    {
        self.playing
    }

    /// Whether playback reached the end of the stream.
    pub fn is_finished(&self) -> (r: bool)
        ensures
            r == self@.finished,
    {
        self.finished
    }

    /// The position, in microseconds from the start of the stream.
    pub fn position_us(&self) -> (r: i64)
        ensures
            r == self@.position_us,
    {
        self.position_us
    }

    /// The duration of the clip, when known.
    pub fn duration_us(&self) -> (r: Option<i64>)
        ensures
            r == self@.duration_us,
    {
        self.duration_us
    }

    /// Pauses running playback, or resumes paused playback; at the end of the stream a
    /// resume first needs a seek to the start.
    pub fn toggle_playback(&mut self, now_ns: u64) -> (r: ToggleOutcome)
        ensures
            (r, final(self)@) == toggle_spec(old(self)@, now_ns),
    {
        if self.playing {
            self.playing = false;
            self.last_tick_ns = now_ns;
            self.accumulator_ns = 0;
            ToggleOutcome::Paused
        } else if self.finished {
            ToggleOutcome::RestartThenResume
        } else {
            self.playing = true;
            self.last_tick_ns = now_ns;
            self.accumulator_ns = 0;
            ToggleOutcome::Resumed
        }
    }

    /// Runs playback from now on.
    pub fn resume(&mut self, now_ns: u64)
        ensures
            final(self)@ == (PlaybackView {
                playing: true,
                last_tick_ns: now_ns,
                accumulator_ns: 0,
                ..old(self)@
            }),
    {
        self.playing = true;
        self.last_tick_ns = now_ns;
        self.accumulator_ns = 0;
    }

    /// Where a seek to `relative_us` from the start of the clip lands: the position kept
    /// within the clip, and the stream timestamp to seek to.
    pub fn seek_target(&self, relative_us: i64) -> (r: (i64, i64))
        ensures
            r.0 == clamp_position(relative_us, self@.duration_us),
            r.1 == sat_add_i64(self@.stream_start_us, r.0),
    {
        let non_negative = if relative_us < 0 {
            0
        } else {
            relative_us
        };
        let clamped = match self.duration_us {
            Some(d) => if non_negative > d {
                d
            } else {
                non_negative
            },
            None => non_negative,
        };
        (clamped, saturating_add_i64(self.stream_start_us, clamped))
    }

    /// Records a completed seek to `position_us`: timing restarts and the stream is open
    /// for decoding again.
    pub fn complete_seek(&mut self, position_us: i64, now_ns: u64)
        requires
            playback_wf(old(self)@),
            position_us == clamp_position(position_us, old(self)@.duration_us),
        ensures
            final(self)@ == (PlaybackView {
                accumulator_ns: 0,
                last_tick_ns: now_ns,
                position_us,
                eof_sent: false,
                finished: false,
                ..old(self)@
            }),
            playback_wf(final(self)@),
    {
        self.accumulator_ns = 0;
        self.last_tick_ns = now_ns;
        self.position_us = position_us;
        self.eof_sent = false;
        self.finished = false;
    }

    /// Starts a tick at `now_ns`: paused playback only notes the time; running playback
    /// also owes the time since the last tick to decoding. Returns whether playback runs.
    pub fn begin_tick(&mut self, now_ns: u64) -> (r: bool)
        ensures
            r == old(self)@.playing,
            final(self)@ == begin_tick_spec(old(self)@, now_ns),
    {
        if !self.playing {
            self.last_tick_ns = now_ns;
            return false;
        }
        let elapsed = now_ns.saturating_sub(self.last_tick_ns);
        self.last_tick_ns = now_ns;
        self.accumulator_ns = self.accumulator_ns.saturating_add(elapsed);
        true
    }

    /// Whether another frame is due in this tick, `decoded` frames having been decoded
    /// in it so far.
    pub fn frame_due(&self, decoded: usize) -> (r: bool)
        ensures
            r == frame_due_spec(self@, decoded as int),
    {
        self.playing && self.accumulator_ns >= self.frame_interval_ns && decoded
            < MAX_FRAMES_PER_TICK
    }

    /// Pays one frame interval of the time owed to decoding.
    pub fn frame_advanced(&mut self)
        ensures
            final(self)@ == frame_advanced_spec(old(self)@),
    {
        self.accumulator_ns = self.accumulator_ns.saturating_sub(self.frame_interval_ns);
    }

    /// Stays on the last frame: the position moves to the end of a clip of known length,
    /// playback stops and is marked finished.
    pub fn finish_on_last_frame(&mut self, now_ns: u64)
        requires
            playback_wf(old(self)@),
        ensures
            final(self)@ == finish_spec(old(self)@, now_ns),
            playback_wf(final(self)@),
    {
        if let Some(d) = self.duration_us {
            self.position_us = d;
        }
        self.playing = false;
        self.finished = true;
        self.accumulator_ns = 0;
        self.eof_sent = false;
        self.last_tick_ns = now_ns;
    }

    /// Moves the position to that of a frame shown at `absolute_us` on the stream's
    /// clock, kept within the clip.
    pub fn set_position_from_stream(&mut self, absolute_us: i64)
        requires
            playback_wf(old(self)@),
        ensures
            final(self)@ == (PlaybackView {
                position_us: clamp_position(
                    sat_sub_i64(absolute_us, old(self)@.stream_start_us),
                    old(self)@.duration_us,
                ),
                ..old(self)@
            }),
            playback_wf(final(self)@),
    {
        let relative = saturating_sub_i64(absolute_us, self.stream_start_us);
        let non_negative = if relative < 0 {
            0
        } else {
            relative
        };
        self.position_us = match self.duration_us {
            Some(d) => if non_negative > d {
                d
            } else {
                non_negative
            },
            None => non_negative,
        };
    }

    /// The next move of a frame decode, given the decoder's answer to a frame request.
    pub fn after_receive(&self, outcome: ReceiveOutcome) -> (r: DecodeStep)
        ensures
            r == match outcome {
                ReceiveOutcome::Frame => DecodeStep::Publish,
                ReceiveOutcome::Again => DecodeStep::Feed,
                ReceiveOutcome::EndOfStream => DecodeStep::Finish,
                ReceiveOutcome::Failed => DecodeStep::Fail,
            },
    {
        match outcome {
            ReceiveOutcome::Frame => DecodeStep::Publish,
            ReceiveOutcome::Again => DecodeStep::Feed,
            ReceiveOutcome::EndOfStream => DecodeStep::Finish,
            ReceiveOutcome::Failed => DecodeStep::Fail,
        }
    }

    /// Which input to give the decoder, given whether a packet is at hand.
    pub fn next_input(&self, has_packet: bool) -> (r: InputStep)
        ensures
            r == (if has_packet {
                InputStep::SendPacket
            } else if !self@.eof_sent {
                InputStep::SendEof
            } else {
                InputStep::Finish
            }),
    {
        if has_packet {
            InputStep::SendPacket
        } else if !self.eof_sent {
            InputStep::SendEof
        } else {
            InputStep::Finish
        }
    }

    /// Records the decoder's answer to a packet.
    pub fn after_send_packet(&mut self, outcome: SendOutcome) -> (r: FeedStep)
        ensures
            r == match outcome {
                SendOutcome::Accepted => FeedStep::Continue,
                SendOutcome::Again => FeedStep::HoldPacket,
                SendOutcome::Failed => FeedStep::Fail,
            },
            final(self)@ == (if outcome == SendOutcome::Accepted {
                PlaybackView { eof_sent: false, ..old(self)@ }
            } else {
                old(self)@
            }),
    {
        match outcome {
            SendOutcome::Accepted => {
                self.eof_sent = false;
                FeedStep::Continue
            },
            SendOutcome::Again => FeedStep::HoldPacket,
            SendOutcome::Failed => FeedStep::Fail,
        }
    }

    /// Records the decoder's answer to the end of input; a decoder that still has
    /// frames to drain counts as told.
    pub fn after_send_eof(&mut self, outcome: SendOutcome) -> (r: FeedStep)
        ensures
            r == (if outcome == SendOutcome::Failed {
                FeedStep::Fail
            } else {
                FeedStep::Continue
            }),
            final(self)@ == (if outcome == SendOutcome::Failed {
                old(self)@
            } else {
                PlaybackView { eof_sent: true, ..old(self)@ }
            }),
    {
        match outcome {
            SendOutcome::Failed => FeedStep::Fail,
            _ => {
                self.eof_sent = true;
                FeedStep::Continue
            },
        }
    }
}

/// A seek always lands within the clip.
pub proof fn law_seek_lands_in_clip(relative: i64, duration: Option<i64>)
    requires
        duration matches Some(d) ==> d > 0,
    ensures
        clamp_position(relative, duration) >= 0,
        duration matches Some(d) ==> clamp_position(relative, duration) <= d,
        (relative >= 0 && (duration matches Some(d) ==> relative <= d)) ==> clamp_position(
            relative,
            duration,
        ) == relative,
{
}

/// Pausing and then resuming (or resuming and then pausing) playback that has not
/// reached the end restores whether it runs, and leaves the position where it was.
pub proof fn law_toggle_twice_restores(p: PlaybackView, t1: u64, t2: u64)
    requires
        !p.finished,
    ensures
        toggle_spec(toggle_spec(p, t1).1, t2).1.playing == p.playing,
        toggle_spec(toggle_spec(p, t1).1, t2).1.position_us == p.position_us,
        toggle_spec(toggle_spec(p, t1).1, t2).1.finished == p.finished,
{
}

/// One tick decodes no more than `MAX_FRAMES_PER_TICK` frames, and no more frames than
/// the whole frame intervals owed when it began: if a frame was due before each of `n`
/// frames, then `n` is within both bounds, and exactly `n` intervals have been paid.
pub proof fn law_tick_decodes_bounded(p: PlaybackView, n: nat)
    requires
        forall|k: nat| k < n ==> frame_due_spec(#[trigger] advance_frames(p, k), k as int),
    ensures
        n <= MAX_FRAMES_PER_TICK,
        n * p.frame_interval_ns <= p.accumulator_ns,
        advance_frames(p, n).accumulator_ns == p.accumulator_ns - n * p.frame_interval_ns,
        advance_frames(p, n).frame_interval_ns == p.frame_interval_ns,
        advance_frames(p, n).position_us == p.position_us,
    decreases n,
{
    if n > 0 {
        let m = (n - 1) as nat;
        assert forall|k: nat| k < m implies frame_due_spec(#[trigger] advance_frames(p, k), k as int) by {
            assert(k < n);
        }
        law_tick_decodes_bounded(p, m);
        assert(frame_due_spec(advance_frames(p, m), m as int));
        assert(m * p.frame_interval_ns + p.frame_interval_ns == n * p.frame_interval_ns) by (nonlinear_arith)
            requires
                m + 1 == n,
        ;
        assert(advance_frames(p, n) == frame_advanced_spec(advance_frames(p, m)));
    } else {
        assert(n * p.frame_interval_ns == 0) by (nonlinear_arith)
            requires
                n == 0,
        ;
    }
}

/// At the end of a video playback freezes on the last frame: it stops at the end of a
/// clip of known length, and no later tick decodes another frame until playback is
/// resumed.
pub proof fn law_end_freezes_on_last_frame(p: PlaybackView, now: u64, later: u64, decoded: int)
    requires
        playback_wf(p),
    ensures
        !finish_spec(p, now).playing,
        finish_spec(p, now).finished,
        p.duration_us matches Some(d) ==> finish_spec(p, now).position_us == d,
        begin_tick_spec(finish_spec(p, now), later).position_us == finish_spec(p, now).position_us,
        !frame_due_spec(begin_tick_spec(finish_spec(p, now), later), decoded),
        toggle_spec(finish_spec(p, now), later).0 == ToggleOutcome::RestartThenResume,
{
}

/// Time owed to decoding carries over from tick to tick: a tick of running playback
/// adds the time since the last tick to what was owed, so nothing owed is lost, and two
/// ticks at `t1` and then `t2` owe exactly as much as one tick at `t2`.
pub proof fn law_owed_time_carries_over(p: PlaybackView, t1: u64, t2: u64)
    requires
        p.playing,
        p.last_tick_ns <= t1 <= t2,
        p.accumulator_ns + (t2 - p.last_tick_ns) <= u64::MAX,
    ensures
        begin_tick_spec(p, t1).accumulator_ns == p.accumulator_ns + (t1 - p.last_tick_ns),
        begin_tick_spec(p, t1).accumulator_ns >= p.accumulator_ns,
        begin_tick_spec(begin_tick_spec(p, t1), t2).accumulator_ns == begin_tick_spec(
            p,
            t2,
        ).accumulator_ns,
        begin_tick_spec(begin_tick_spec(p, t1), t2).last_tick_ns == t2,
        frame_due_spec(begin_tick_spec(begin_tick_spec(p, t1), t2), 0) == (p.accumulator_ns + (t2
            - p.last_tick_ns) >= p.frame_interval_ns),
{
}

} // verus!
