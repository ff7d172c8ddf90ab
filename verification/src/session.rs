//! The recording session: whether audio is being captured, whether capture
//! is paused, the capture format, and the recorded samples. Every command of
//! the recorder is a transition of this state; the capture devices, the
//! clock and the files stay with the caller, which reports what they gave.

use vstd::prelude::*;
use vstd::string::StringSliceAdditionalSpecFns;

verus! {

/// Why a command was refused.
#[derive(PartialEq, Eq, Structural, Clone, Copy, Debug)]
pub enum SessionError {
    AlreadyRecording,
    NotRecording,
    CannotClearWhileRecording,
    NoAudioData,
}

pub open spec fn spec_error_message(e: SessionError) -> Seq<char> {
    match e {
        SessionError::AlreadyRecording => "Already recording"@,
        SessionError::NotRecording => "Not recording"@,
        SessionError::CannotClearWhileRecording => "Cannot clear while recording"@,
        SessionError::NoAudioData => "No audio data to save"@,
    }
}

impl SessionError {
    /// The message the recorder answers a refused command with.
    pub fn message(&self) -> (m: String)
        ensures
            m@ == spec_error_message(*self),
    {
        match self {
            SessionError::AlreadyRecording => String::from_str("Already recording"),
            SessionError::NotRecording => String::from_str("Not recording"),
            SessionError::CannotClearWhileRecording => String::from_str(
                "Cannot clear while recording",
            ),
            SessionError::NoAudioData => String::from_str("No audio data to save"),
        }
    }
}


/// The file format a recording is saved in.
#[derive(PartialEq, Eq, Structural, Clone, Copy, Debug)]
pub enum SaveFormat {
    OggOpus,
    Wav,
}

/// The byte `b` with ASCII upper-case letters mapped to lower case.
pub open spec fn ascii_lower(b: u8) -> u8 {
    if 65 <= b <= 90 {
        (b + 32) as u8
    } else {
        b
    }
}

/// `bytes` ends with `suffix` (a lower-case ASCII string) when compared
/// without regard to ASCII case.
pub open spec fn ends_with_ignoring_case(bytes: Seq<u8>, suffix: Seq<u8>) -> bool {
    &&& bytes.len() >= suffix.len()
    &&& forall|i: int|
        0 <= i < suffix.len() ==> ascii_lower(#[trigger] bytes[bytes.len() - suffix.len() + i])
            == suffix[i]
}

/// ".ogg"
pub open spec fn ogg_suffix() -> Seq<u8> {
    seq![0x2eu8, 0x6fu8, 0x67u8, 0x67u8]
}

/// ".opus"
pub open spec fn opus_suffix() -> Seq<u8> {
    seq![0x2eu8, 0x6fu8, 0x70u8, 0x75u8, 0x73u8]
}

/// A path ending in ".ogg" or ".opus", in any case, is saved as Ogg/Opus;
/// any other path as WAV.
pub open spec fn spec_save_format(path: Seq<u8>) -> SaveFormat {
    if ends_with_ignoring_case(path, ogg_suffix()) || ends_with_ignoring_case(path, opus_suffix()) {
        SaveFormat::OggOpus
    } else {
        SaveFormat::Wav
    }
}

fn ends_with_ignoring_case_exec(bytes: &[u8], suffix: &[u8]) -> (r: bool)
    ensures
        r == ends_with_ignoring_case(bytes@, suffix@),
{
    if bytes.len() < suffix.len() {
        return false;
    }
    let n = bytes.len();
    let offset = n - suffix.len();
    let mut i: usize = 0;
    while i < suffix.len()
        invariant
            n == bytes@.len(),
            bytes@.len() >= suffix@.len(),
            offset == bytes@.len() - suffix@.len(),
            i <= suffix@.len(),
            forall|j: int|
                0 <= j < i ==> ascii_lower(#[trigger] bytes@[bytes@.len() - suffix@.len() + j])
                    == suffix@[j],
        decreases suffix@.len() - i,
    {
        let b = bytes[offset + i];
        let lower = if 65 <= b && b <= 90 {
            b + 32
        } else {
            b
        };
        if lower != suffix[i] {
            assert(ascii_lower(bytes@[bytes@.len() - suffix@.len() + i]) != suffix@[i as int]);
            return false;
        }
        i = i + 1;
    }
    true
}

/// The format a recording saved under `path` is written in.
pub fn save_format_for_path(path: &str) -> (f: SaveFormat)
    ensures
        f == spec_save_format(path.spec_bytes()),
{
    let bytes = path.as_bytes();
    let ogg: [u8; 4] = [0x2e, 0x6f, 0x67, 0x67];
    let opus: [u8; 5] = [0x2e, 0x6f, 0x70, 0x75, 0x73];
    assert(ogg@ =~= ogg_suffix());
    assert(opus@ =~= opus_suffix());
    if ends_with_ignoring_case_exec(bytes, &ogg) || ends_with_ignoring_case_exec(bytes, &opus) {
        SaveFormat::OggOpus
    } else {
        SaveFormat::Wav
    }
}

/// What the capture loop does next.
#[derive(PartialEq, Eq, Structural, Clone, Copy, Debug)]
pub enum CaptureAction {
    /// Recording has stopped: stop the devices and end the loop.
    Finish,
    /// Recording is paused: read the devices and discard what they gave,
    /// so that audio played during the pause is not recorded on resuming.
    Drain,
    /// Read the devices and append what they gave.
    Capture,
}

/// A command given to a session: the steps of a start (discard the old
/// recording, the device format, the devices started), captured samples,
/// stop, pause, resume and clear.
pub enum SessionCommand<S> {
    BeginStart,
    SetFormat(u32, u16),
    CaptureStarted,
    Append(Seq<S>),
    Stop,
    Pause,
    Resume,
    Clear,
}

/// A buffer of `len` interleaved samples holds whole frames of `channels`
/// channels (and nothing when there are no channels).
pub open spec fn frame_aligned(len: int, channels: u16) -> bool {
    if channels == 0 {
        len == 0
    } else {
        len % channels as int == 0
    }
}

/// What the recorder reports of itself.
#[derive(PartialEq, Eq, Structural, Clone, Copy, Debug)]
pub struct RecordingStatus {
    pub is_recording: bool,
    pub is_paused: bool,
    pub buffer_size: usize,
    pub duration_seconds: u64,
    pub sample_rate: u32,
    pub channels: u16,
}

/// The abstract state of a session.
pub struct SessionView<S> {
    pub recording: bool,
    pub paused: bool,
    pub sample_rate: u32,
    pub channels: u16,
    pub buffer: Seq<S>,
}

impl<S> SessionView<S> {
    /// A fresh session: idle, 48 kHz stereo, nothing recorded.
    pub open spec fn initial() -> Self {
        SessionView {
            recording: false,
            paused: false,
            sample_rate: 48000,
            channels: 2,
            buffer: Seq::empty(),
        }
    }

    /// Starting is refused while recording.
    pub open spec fn start_outcome(self) -> Result<(), SessionError> {
        if self.recording {
            Err(SessionError::AlreadyRecording)
        } else {
            Ok(())
        }
    }

    /// An accepted start discards the previous recording.
    pub open spec fn after_begin_start(self) -> Self {
        if self.recording {
            self
        } else {
            SessionView { buffer: Seq::empty(), ..self }
        }
    }

    /// The capture format reported by the system-audio device.
    pub open spec fn with_format(self, sample_rate: u32, channels: u16) -> Self {
        SessionView { sample_rate, channels, ..self }
    }

    /// The devices run: recording, not paused.
    pub open spec fn after_capture_started(self) -> Self {
        SessionView { recording: true, paused: false, ..self }
    }

    /// Captured samples are appended to the recording while capturing
    /// (recording, not paused); at any other time they are dropped.
    pub open spec fn after_append(self, samples: Seq<S>) -> Self {
        if self.recording && !self.paused {
            SessionView { buffer: self.buffer + samples, ..self }
        } else {
            self
        }
    }

    /// The state after one command.
    pub open spec fn apply(self, cmd: SessionCommand<S>) -> Self {
        match cmd {
            SessionCommand::BeginStart => self.after_begin_start(),
            SessionCommand::SetFormat(rate, channels) => self.with_format(rate, channels),
            SessionCommand::CaptureStarted => self.after_capture_started(),
            SessionCommand::Append(samples) => self.after_append(samples),
            SessionCommand::Stop => self.after_stop(),
            SessionCommand::Pause => self.after_pause(),
            SessionCommand::Resume => self.after_resume(),
            SessionCommand::Clear => self.after_clear(),
        }
    }

    /// The state after a sequence of commands, in order.
    pub open spec fn run(self, cmds: Seq<SessionCommand<S>>) -> Self
        decreases cmds.len(),
    {
        if cmds.len() == 0 {
            self
        } else {
            self.apply(cmds[0]).run(cmds.drop_first())
        }
    }

    /// Stop, pause and resume are refused unless recording.
    pub open spec fn control_outcome(self) -> Result<(), SessionError> {
        if self.recording {
            Ok(())
        } else {
            Err(SessionError::NotRecording)
        }
    }

    pub open spec fn after_stop(self) -> Self {
        if self.recording {
            SessionView { recording: false, ..self }
        } else {
            self
        }
    }

    pub open spec fn after_pause(self) -> Self {
        if self.recording {
            SessionView { paused: true, ..self }
        } else {
            self
        }
    }

    pub open spec fn after_resume(self) -> Self {
        if self.recording {
            SessionView { paused: false, ..self }
        } else {
            self
        }
    }

    /// Clearing is refused while recording.
    pub open spec fn clear_outcome(self) -> Result<(), SessionError> {
        if self.recording {
            Err(SessionError::CannotClearWhileRecording)
        } else {
            Ok(())
        }
    }

    pub open spec fn after_clear(self) -> Self {
        if self.recording {
            self
        } else {
            SessionView { buffer: Seq::empty(), ..self }
        }
    }

    /// Saving is refused when nothing was recorded; otherwise the path
    /// chooses the format.
    pub open spec fn save_outcome(self, path: Seq<u8>) -> Result<SaveFormat, SessionError> {
        if self.buffer.len() == 0 {
            Err(SessionError::NoAudioData)
        } else {
            Ok(spec_save_format(path))
        }
    }

    pub open spec fn capture_action(self) -> CaptureAction {
        if !self.recording {
            CaptureAction::Finish
        } else if self.paused {
            CaptureAction::Drain
        } else {
            CaptureAction::Capture
        }
    }

    /// The status report; `elapsed` is the time since the last start, if
    /// there was one, and counts only while recording.
    pub open spec fn status(self, elapsed: Option<u64>) -> RecordingStatus {
        RecordingStatus {
            is_recording: self.recording,
            is_paused: self.paused,
            buffer_size: self.buffer.len() as usize,
            duration_seconds: if self.recording {
                match elapsed {
                    Some(secs) => secs,
                    None => 0,
                }
            } else {
                0
            },
            sample_rate: self.sample_rate,
            channels: self.channels,
        }
    }
}

/// Pausing then resuming a recording session returns it to recording,
/// unpaused, with nothing else changed; resuming then pausing leaves it
/// paused. Both commands are accepted throughout.
pub proof fn lemma_pause_resume<S>(s: SessionView<S>)
    requires
        s.recording,
    ensures
        s.control_outcome() is Ok,
        s.after_pause().control_outcome() is Ok,
        s.after_pause().after_resume() == (SessionView { paused: false, ..s }),
        s.after_resume().after_pause() == (SessionView { paused: true, ..s }),
        s.after_pause().capture_action() == CaptureAction::Drain,
        s.after_pause().after_resume().capture_action() == CaptureAction::Capture,
{
}

/// A session that is not recording refuses stop, pause and resume with
/// "Not recording" and is left as it was; its capture loop finishes.
pub proof fn lemma_idle_refuses_control<S>(s: SessionView<S>)
    requires
        !s.recording,
    ensures
        s.control_outcome() == Err::<(), SessionError>(SessionError::NotRecording),
        s.after_stop() == s,
        s.after_pause() == s,
        s.after_resume() == s,
        s.capture_action() == CaptureAction::Finish,
{
}

/// Stopping ends capture and keeps the recording: afterwards the capture
/// loop finishes, a second stop is refused, and clearing and starting are
/// accepted again.
pub proof fn lemma_stop_ends_capture<S>(s: SessionView<S>)
    requires
        s.recording,
    ensures
        s.control_outcome() is Ok,
        !s.after_stop().recording,
        s.after_stop().buffer == s.buffer,
        s.after_stop().capture_action() == CaptureAction::Finish,
        s.after_stop().control_outcome() == Err::<(), SessionError>(SessionError::NotRecording),
        s.after_stop().clear_outcome() is Ok,
        s.after_stop().start_outcome() is Ok,
{
}

/// An accepted start, followed by the device format and the start of the
/// devices, gives a session that records, unpaused, from an empty buffer in
/// that format, and that refuses a second start and a clear.
pub proof fn lemma_start_sequence<S>(s: SessionView<S>, sample_rate: u32, channels: u16)
    requires
        s.start_outcome() is Ok,
    ensures
        ({
            let t = s.after_begin_start().with_format(sample_rate, channels).after_capture_started();
            &&& t.recording && !t.paused
            &&& t.buffer == Seq::<S>::empty()
            &&& t.sample_rate == sample_rate && t.channels == channels
            &&& t.capture_action() == CaptureAction::Capture
            &&& t.start_outcome() == Err::<(), SessionError>(SessionError::AlreadyRecording)
            &&& t.clear_outcome() == Err::<(), SessionError>(
                SessionError::CannotClearWhileRecording,
            )
        }),
{
}

/// After an accepted clear there is nothing to save.
pub proof fn lemma_clear_then_save_refused<S>(s: SessionView<S>, path: Seq<u8>)
    requires
        s.clear_outcome() is Ok,
    ensures
        s.after_clear().buffer.len() == 0,
        s.after_clear().save_outcome(path) == Err::<SaveFormat, SessionError>(
            SessionError::NoAudioData,
        ),
{
}

/// While capturing, captured samples accumulate in order, and once anything
/// was captured a save is accepted in the format the path calls for.
pub proof fn lemma_capture_accumulates<S>(
    s: SessionView<S>,
    first: Seq<S>,
    second: Seq<S>,
    path: Seq<u8>,
)
    requires
        s.capture_action() == CaptureAction::Capture,
    ensures
        s.after_append(first).after_append(second).buffer == s.buffer + first + second,
        first.len() > 0 ==> s.after_append(first).save_outcome(path) == Ok::<
            SaveFormat,
            SessionError,
        >(spec_save_format(path)),
{
    assert(s.buffer + first + second =~= s.buffer + (first + second));
}

/// After an accepted clear, nothing is saved until the devices are started
/// again: whatever stops, pauses, resumes, captured samples, format changes,
/// start requests and clears follow, the session stays idle with an empty
/// buffer and a save is refused with "No audio data to save".
pub proof fn lemma_cleared_stays_empty<S>(
    s: SessionView<S>,
    cmds: Seq<SessionCommand<S>>,
    path: Seq<u8>,
)
    requires
        s.clear_outcome() is Ok,
        forall|i: int| 0 <= i < cmds.len() ==> !(#[trigger] cmds[i] is CaptureStarted),
    ensures
        !s.after_clear().run(cmds).recording,
        s.after_clear().run(cmds).buffer.len() == 0,
        s.after_clear().run(cmds).save_outcome(path) == Err::<SaveFormat, SessionError>(
            SessionError::NoAudioData,
        ),
    decreases cmds.len(),
{
    lemma_idle_empty_run(s.after_clear(), cmds);
}

proof fn lemma_idle_empty_run<S>(s: SessionView<S>, cmds: Seq<SessionCommand<S>>)
    requires
        !s.recording,
        s.buffer.len() == 0,
        forall|i: int| 0 <= i < cmds.len() ==> !(#[trigger] cmds[i] is CaptureStarted),
    ensures
        !s.run(cmds).recording,
        s.run(cmds).buffer.len() == 0,
    decreases cmds.len(),
{
    if cmds.len() > 0 {
        let rest = cmds.drop_first();
        assert(!(cmds[0] is CaptureStarted));
        assert forall|i: int| 0 <= i < rest.len() implies !(#[trigger] rest[i] is CaptureStarted) by {
            assert(rest[i] == cmds[i + 1]);
        }
        lemma_idle_empty_run(s.apply(cmds[0]), rest);
    }
}

/// Within one recording (no new start and no clear), the format stays as it
/// was, the buffer only grows (what was recorded stays its prefix), and when
/// every batch of captured samples holds whole frames, the buffer always
/// holds whole frames of the recording's channel count.
pub proof fn lemma_recording_frames<S>(s: SessionView<S>, cmds: Seq<SessionCommand<S>>)
    requires
        frame_aligned(s.buffer.len() as int, s.channels),
        forall|i: int|
            0 <= i < cmds.len() ==> {
                let c = #[trigger] cmds[i];
                &&& !(c is BeginStart)
                &&& !(c is SetFormat)
                &&& !(c is Clear)
                &&& c matches SessionCommand::Append(samples) ==> frame_aligned(
                    samples.len() as int,
                    s.channels,
                )
            },
    ensures
        s.run(cmds).channels == s.channels,
        s.run(cmds).sample_rate == s.sample_rate,
        s.buffer.len() <= s.run(cmds).buffer.len(),
        s.run(cmds).buffer.subrange(0, s.buffer.len() as int) == s.buffer,
        frame_aligned(s.run(cmds).buffer.len() as int, s.channels),
    decreases cmds.len(),
{
    if cmds.len() > 0 {
        let t = s.apply(cmds[0]);
        let rest = cmds.drop_first();
        assert(frame_aligned(t.buffer.len() as int, t.channels)) by {
            if let SessionCommand::Append(samples) = cmds[0] {
                if s.recording && !s.paused && s.channels > 0 {
                    let c = s.channels as int;
                    let a = s.buffer.len() as int;
                    let b = samples.len() as int;
                    vstd::arithmetic::div_mod::lemma_mod_adds(a, b, c);
                }
            }
        }
        assert forall|i: int| 0 <= i < rest.len() implies {
            let c = #[trigger] rest[i];
            &&& !(c is BeginStart)
            &&& !(c is SetFormat)
            &&& !(c is Clear)
            &&& c matches SessionCommand::Append(samples) ==> frame_aligned(
                samples.len() as int,
                t.channels,
            )
        } by {
            assert(rest[i] == cmds[i + 1]);
        }
        lemma_recording_frames(t, rest);
        assert(t.buffer.subrange(0, s.buffer.len() as int) =~= s.buffer);
        assert(t.run(rest).buffer.subrange(0, s.buffer.len() as int) =~= t.run(
            rest,
        ).buffer.subrange(0, t.buffer.len() as int).subrange(0, s.buffer.len() as int));
    }
}

/// A paused session records nothing: until it is resumed or its devices are
/// started again, captured samples are dropped, whatever stops and pauses
/// come in between, and its capture loop drains or finishes rather than
/// capturing.
pub proof fn lemma_pause_records_nothing<S>(s: SessionView<S>, cmds: Seq<SessionCommand<S>>)
    requires
        s.paused,
        forall|i: int|
            0 <= i < cmds.len() ==> {
                let c = #[trigger] cmds[i];
                &&& !(c is Resume)
                &&& !(c is CaptureStarted)
                &&& !(c is BeginStart)
                &&& !(c is Clear)
            },
    ensures
        s.run(cmds).buffer == s.buffer,
        s.run(cmds).paused,
        s.run(cmds).capture_action() != CaptureAction::Capture,
    decreases cmds.len(),
{
    if cmds.len() > 0 {
        let rest = cmds.drop_first();
        assert forall|i: int| 0 <= i < rest.len() implies {
            let c = #[trigger] rest[i];
            &&& !(c is Resume)
            &&& !(c is CaptureStarted)
            &&& !(c is BeginStart)
            &&& !(c is Clear)
        } by {
            assert(rest[i] == cmds[i + 1]);
        }
        let c0 = cmds[0];
        assert(!(c0 is Resume) && !(c0 is CaptureStarted) && !(c0 is BeginStart) && !(
        c0 is Clear));
        lemma_pause_records_nothing(s.apply(cmds[0]), rest);
    }
}

/// A refused command changes nothing: a start while recording, a clear
/// while recording, and a stop, pause or resume while not recording leave
/// the whole session, its recorded samples included, as it was.
pub proof fn lemma_refusal_changes_nothing<S>(s: SessionView<S>)
    ensures
        s.start_outcome() is Err ==> s.after_begin_start() == s,
        s.clear_outcome() is Err ==> s.after_clear() == s,
        s.control_outcome() is Err ==> s.after_stop() == s && s.after_pause() == s
            && s.after_resume() == s,
        s.recording ==> s.start_outcome() == Err::<(), SessionError>(
            SessionError::AlreadyRecording,
        ) && s.clear_outcome() == Err::<(), SessionError>(
            SessionError::CannotClearWhileRecording,
        ),
        !s.recording ==> s.after_begin_start().buffer.len() == 0 && s.after_clear().buffer.len()
            == 0,
        s.after_begin_start().recording == s.recording && s.after_begin_start().paused == s.paused
            && s.after_begin_start().sample_rate == s.sample_rate
            && s.after_begin_start().channels == s.channels,
{
}

/// Whether a save is accepted depends on the recorded samples alone: with
/// samples it is accepted, recording or not, paused or not, in Ogg/Opus for
/// a path ending in ".ogg" or ".opus" in any case and in WAV otherwise;
/// stopping, pausing or resuming does not change the answer.
pub proof fn lemma_save_outcome<S>(s: SessionView<S>, path: Seq<u8>)
    ensures
        s.buffer.len() == 0 ==> s.save_outcome(path) == Err::<SaveFormat, SessionError>(
            SessionError::NoAudioData,
        ),
        s.buffer.len() > 0 && (ends_with_ignoring_case(path, ogg_suffix())
            || ends_with_ignoring_case(path, opus_suffix())) ==> s.save_outcome(path) == Ok::<
            SaveFormat,
            SessionError,
        >(SaveFormat::OggOpus),
        s.buffer.len() > 0 && !ends_with_ignoring_case(path, ogg_suffix())
            && !ends_with_ignoring_case(path, opus_suffix()) ==> s.save_outcome(path) == Ok::<
            SaveFormat,
            SessionError,
        >(SaveFormat::Wav),
        s.after_stop().save_outcome(path) == s.save_outcome(path),
        s.after_pause().save_outcome(path) == s.save_outcome(path),
        s.after_resume().save_outcome(path) == s.save_outcome(path),
        (SessionView { recording: !s.recording, paused: !s.paused, ..s }).save_outcome(path)
            == s.save_outcome(path),
{
}

/// The reported duration is the elapsed time handed in (0 when there is
/// none) while recording, paused or not, and 0 when not recording; pausing
/// and resuming do not change it. The other fields report the session.
pub proof fn lemma_status_report<S>(s: SessionView<S>, elapsed: Option<u64>, secs: u64)
    requires
        s.buffer.len() <= usize::MAX,
    ensures
        s.recording ==> s.status(Some(secs)).duration_seconds == secs,
        s.status(None).duration_seconds == 0,
        !s.recording ==> s.status(elapsed).duration_seconds == 0,
        s.after_pause().status(elapsed).duration_seconds == s.status(elapsed).duration_seconds,
        s.after_resume().status(elapsed).duration_seconds == s.status(elapsed).duration_seconds,
        s.status(elapsed).is_recording == s.recording,
        s.status(elapsed).is_paused == s.paused,
        s.status(elapsed).buffer_size == s.buffer.len(),
        s.status(elapsed).sample_rate == s.sample_rate,
        s.status(elapsed).channels == s.channels,
{
}

/// Any path ending in ".ogg" or ".opus", whether in lower or upper case, is
/// saved as Ogg/Opus, and any path ending in ".wav" as WAV.
pub proof fn lemma_save_format_suffixes(prefix: Seq<u8>)
    ensures
        spec_save_format(prefix + seq![0x2eu8, 0x6fu8, 0x67u8, 0x67u8]) == SaveFormat::OggOpus,
        spec_save_format(prefix + seq![0x2eu8, 0x4fu8, 0x47u8, 0x47u8]) == SaveFormat::OggOpus,
        spec_save_format(prefix + seq![0x2eu8, 0x6fu8, 0x70u8, 0x75u8, 0x73u8])
            == SaveFormat::OggOpus,
        spec_save_format(prefix + seq![0x2eu8, 0x4fu8, 0x50u8, 0x55u8, 0x53u8])
            == SaveFormat::OggOpus,
        spec_save_format(prefix + seq![0x2eu8, 0x77u8, 0x61u8, 0x76u8]) == SaveFormat::Wav,
{
    let n = prefix.len() as int;
    let p1 = prefix + seq![0x2eu8, 0x6fu8, 0x67u8, 0x67u8];
    assert(p1[n] == 0x2e && p1[n + 1] == 0x6f && p1[n + 2] == 0x67 && p1[n + 3] == 0x67);
    assert(ends_with_ignoring_case(p1, ogg_suffix()));
    let p2 = prefix + seq![0x2eu8, 0x4fu8, 0x47u8, 0x47u8];
    assert(p2[n] == 0x2e && p2[n + 1] == 0x4f && p2[n + 2] == 0x47 && p2[n + 3] == 0x47);
    assert(ends_with_ignoring_case(p2, ogg_suffix()));
    let p3 = prefix + seq![0x2eu8, 0x6fu8, 0x70u8, 0x75u8, 0x73u8];
    assert(p3[n] == 0x2e && p3[n + 1] == 0x6f && p3[n + 2] == 0x70 && p3[n + 3] == 0x75 && p3[n
        + 4] == 0x73);
    assert(ends_with_ignoring_case(p3, opus_suffix()));
    let p4 = prefix + seq![0x2eu8, 0x4fu8, 0x50u8, 0x55u8, 0x53u8];
    assert(p4[n] == 0x2e && p4[n + 1] == 0x4f && p4[n + 2] == 0x50 && p4[n + 3] == 0x55 && p4[n
        + 4] == 0x53);
    assert(ends_with_ignoring_case(p4, opus_suffix()));
    let p5 = prefix + seq![0x2eu8, 0x77u8, 0x61u8, 0x76u8];
    assert(p5[n + 3] == 0x76);
    assert(ascii_lower(p5[p5.len() - 4 + 3]) != ogg_suffix()[3]);
    assert(ascii_lower(p5[p5.len() - 5 + 4]) != opus_suffix()[4]);
}

/// Only starting and clearing discard samples: stopping, pausing, resuming,
/// setting the format and starting the devices keep the recording.
pub proof fn lemma_recording_kept<S>(s: SessionView<S>, sample_rate: u32, channels: u16)
    ensures
        s.after_stop().buffer == s.buffer,
        s.after_pause().buffer == s.buffer,
        s.after_resume().buffer == s.buffer,
        s.with_format(sample_rate, channels).buffer == s.buffer,
        s.after_capture_started().buffer == s.buffer,
{
}

/// The format choice ignores ASCII case: upper-casing any letters of the
/// path does not change it.
pub proof fn lemma_save_format_ignores_case(path: Seq<u8>, other: Seq<u8>)
    requires
        path.len() == other.len(),
        forall|i: int| 0 <= i < path.len() ==> ascii_lower(#[trigger] path[i]) == ascii_lower(
            other[i],
        ),
    ensures
        spec_save_format(path) == spec_save_format(other),
{
    lemma_ends_with_same_lower(path, other, ogg_suffix());
    lemma_ends_with_same_lower(path, other, opus_suffix());
}

proof fn lemma_ends_with_same_lower(path: Seq<u8>, other: Seq<u8>, suffix: Seq<u8>)
    requires
        path.len() == other.len(),
        forall|i: int| 0 <= i < path.len() ==> ascii_lower(#[trigger] path[i]) == ascii_lower(
            other[i],
        ),
    ensures
        ends_with_ignoring_case(path, suffix) == ends_with_ignoring_case(other, suffix),
{
    if ends_with_ignoring_case(path, suffix) {
        assert forall|i: int| 0 <= i < suffix.len() implies ascii_lower(
            #[trigger] other[other.len() - suffix.len() + i],
        ) == suffix[i] by {
            assert(ascii_lower(path[path.len() - suffix.len() + i]) == suffix[i]);
        }
    }
    if ends_with_ignoring_case(other, suffix) {
        assert forall|i: int| 0 <= i < suffix.len() implies ascii_lower(
            #[trigger] path[path.len() - suffix.len() + i],
        ) == suffix[i] by {
            assert(ascii_lower(other[other.len() - suffix.len() + i]) == suffix[i]);
        }
    }
}

/// A recording session holding samples of type `S`.
pub struct Session<S> {
    recording: bool,
    paused: bool,
    sample_rate: u32,
    channels: u16,
    buffer: Vec<S>,
}

impl<S> View for Session<S> {
    type V = SessionView<S>;

    closed spec fn view(&self) -> SessionView<S> {
        SessionView {
            recording: self.recording,
            paused: self.paused,
            sample_rate: self.sample_rate,
            channels: self.channels,
            buffer: self.buffer@,
        }
    }
}

impl<S> Session<S> {
    pub fn new() -> (s: Self)
        ensures
            s@ == SessionView::<S>::initial(),
    {
        Session { recording: false, paused: false, sample_rate: 48000, channels: 2, buffer: Vec::new() }
    }

    /// A start request: refused while recording, otherwise the previous
    /// recording is discarded and the devices may be opened.
    pub fn begin_start(&mut self) -> (r: Result<(), SessionError>)
        ensures
            r == old(self)@.start_outcome(),
            final(self)@ == old(self)@.after_begin_start(),
    {
        if self.recording {
            return Err(SessionError::AlreadyRecording);
        }
        self.buffer.clear();
        Ok(())
    }

    /// Records the format of the system-audio device.
    pub fn set_format(&mut self, sample_rate: u32, channels: u16)
        ensures
            final(self)@ == old(self)@.with_format(sample_rate, channels),
    {
        self.sample_rate = sample_rate;
        self.channels = channels;
    }

    /// The devices have started: the session records, unpaused.
    pub fn capture_started(&mut self)
        ensures
            final(self)@ == old(self)@.after_capture_started(),
    {
        self.recording = true;
        self.paused = false;
    }

    /// What the capture loop does next.
    pub fn capture_action(&self) -> (a: CaptureAction)
        ensures
            a == self@.capture_action(),
    {
        if !self.recording {
            CaptureAction::Finish
        } else if self.paused {
            CaptureAction::Drain
        } else {
            CaptureAction::Capture
        }
    }

    /// Appends captured samples (whole frames of the session's channel
    /// count) to the recording while capturing; drops them otherwise.
    pub fn append_captured(&mut self, samples: Vec<S>)
        requires
            frame_aligned(samples@.len() as int, old(self)@.channels),
        ensures
            final(self)@ == old(self)@.after_append(samples@),
    {
        if self.recording && !self.paused {
            let mut samples = samples;
            self.buffer.append(&mut samples);
        }
    }

    /// Stops recording.
    pub fn stop(&mut self) -> (r: Result<(), SessionError>)
        ensures
            r == old(self)@.control_outcome(),
            final(self)@ == old(self)@.after_stop(),
    {
        if !self.recording {
            return Err(SessionError::NotRecording);
        }
        self.recording = false;
        Ok(())
    }

    /// Pauses recording.
    pub fn pause(&mut self) -> (r: Result<String, SessionError>)
        ensures
            r is Ok <==> old(self)@.control_outcome() is Ok,
            r matches Ok(m) ==> m@ == "Recording paused"@,
            r matches Err(e) ==> old(self)@.control_outcome() == Err::<(), SessionError>(e),
            final(self)@ == old(self)@.after_pause(),
    {
        if !self.recording {
            return Err(SessionError::NotRecording);
        }
        self.paused = true;
        Ok(String::from_str("Recording paused"))
    }

    /// Resumes recording.
    pub fn resume(&mut self) -> (r: Result<String, SessionError>)
        ensures
            r is Ok <==> old(self)@.control_outcome() is Ok,
            r matches Ok(m) ==> m@ == "Recording resumed"@,
            r matches Err(e) ==> old(self)@.control_outcome() == Err::<(), SessionError>(e),
            final(self)@ == old(self)@.after_resume(),
    {
        if !self.recording {
            return Err(SessionError::NotRecording);
        }
        self.paused = false;
        Ok(String::from_str("Recording resumed"))
    }

    /// Discards the recording; refused while recording.
    pub fn clear(&mut self) -> (r: Result<String, SessionError>)
        ensures
            r is Ok <==> old(self)@.clear_outcome() is Ok,
            r matches Ok(m) ==> m@ == "Recording buffer cleared"@,
            r matches Err(e) ==> old(self)@.clear_outcome() == Err::<(), SessionError>(e),
            final(self)@ == old(self)@.after_clear(),
    {
        if self.recording {
            return Err(SessionError::CannotClearWhileRecording);
        }
        self.buffer.clear();
        Ok(String::from_str("Recording buffer cleared"))
    }

    /// The status report, given the time since the last start if any.
    pub fn status(&self, elapsed_secs: Option<u64>) -> (st: RecordingStatus)
        ensures
            st == self@.status(elapsed_secs),
            st.buffer_size == self@.buffer.len(),
    {
        let duration_seconds = if self.recording {
            match elapsed_secs {
                Some(secs) => secs,
                None => 0,
            }
        } else {
            0
        };
        RecordingStatus {
            is_recording: self.recording,
            is_paused: self.paused,
            buffer_size: self.buffer.len(),
            duration_seconds,
            sample_rate: self.sample_rate,
            channels: self.channels,
        }
    }

    /// A save request: refused when nothing was recorded, otherwise the
    /// format that `path` calls for.
    pub fn save_request(&self, path: &str) -> (r: Result<SaveFormat, SessionError>)
        ensures
            r == self@.save_outcome(path.spec_bytes()),
    {
        if self.buffer.len() == 0 {
            return Err(SessionError::NoAudioData);
        }
        Ok(save_format_for_path(path))
    }

    /// The recorded samples.
    pub fn samples(&self) -> (b: &Vec<S>)
        ensures
            b@ == self@.buffer,
    {
        &self.buffer
    }

    /// The capture sample rate.
    pub fn sample_rate(&self) -> (r: u32)
        ensures
            r == self@.sample_rate,
    {
        self.sample_rate
    }

    /// The capture channel count.
    pub fn channels(&self) -> (r: u16)
        ensures
            r == self@.channels,
    {
        self.channels
    }
}

} // verus!
