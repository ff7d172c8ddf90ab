use tauri_recorder::capture::{CaptureMode, EndpointFlow, StreamSettings};
use tauri_recorder::session::{
    save_format_for_path, CaptureAction, RecordingStatus, SaveFormat, Session, SessionError,
};
use tauri_recorder::text::{decimal_string, start_message, stop_message};

fn recording_session() -> Session<i16> {
    let mut s: Session<i16> = Session::new();
    s.begin_start().unwrap();
    s.set_format(44100, 1);
    s.capture_started();
    s
}

#[test]
fn new_session_is_idle_48k_stereo() {
    let s: Session<i16> = Session::new();
    assert_eq!(
        s.status(None),
        RecordingStatus {
            is_recording: false,
            is_paused: false,
            buffer_size: 0,
            duration_seconds: 0,
            sample_rate: 48000,
            channels: 2,
        }
    );
    assert_eq!(s.capture_action(), CaptureAction::Finish);
}

#[test]
fn start_sequence_law() {
    let mut s = recording_session();
    s.append_captured(vec![1, 2, 3]);
    s.stop().unwrap();
    assert_eq!(s.begin_start(), Ok(()));
    assert!(s.samples().is_empty());
    s.set_format(16000, 2);
    s.capture_started();
    assert_eq!(s.capture_action(), CaptureAction::Capture);
    assert_eq!(s.begin_start(), Err(SessionError::AlreadyRecording));
    assert_eq!(s.clear(), Err(SessionError::CannotClearWhileRecording));
    assert_eq!(s.sample_rate(), 16000);
    assert_eq!(s.channels(), 2);
}

#[test]
fn pause_resume_law() {
    let mut s = recording_session();
    assert_eq!(s.pause().unwrap(), "Recording paused");
    assert_eq!(s.capture_action(), CaptureAction::Drain);
    assert!(s.status(Some(3)).is_paused);
    assert_eq!(s.resume().unwrap(), "Recording resumed");
    assert_eq!(s.capture_action(), CaptureAction::Capture);
    let st = s.status(Some(3));
    assert!(st.is_recording && !st.is_paused);
}

#[test]
fn idle_session_refuses_control_law() {
    let mut s: Session<i16> = Session::new();
    assert_eq!(s.stop(), Err(SessionError::NotRecording));
    assert_eq!(s.pause(), Err(SessionError::NotRecording));
    assert_eq!(s.resume(), Err(SessionError::NotRecording));
    assert_eq!(s.status(Some(9)), Session::<i16>::new().status(Some(9)));
}

#[test]
fn stop_ends_capture_law() {
    let mut s = recording_session();
    s.append_captured(vec![5, 6]);
    assert_eq!(s.stop(), Ok(()));
    assert_eq!(s.capture_action(), CaptureAction::Finish);
    assert_eq!(s.stop(), Err(SessionError::NotRecording));
    assert_eq!(s.samples(), &vec![5, 6]);
    assert_eq!(s.status(Some(40)).duration_seconds, 0);
}

#[test]
fn stop_keeps_paused_flag() {
    let mut s = recording_session();
    s.pause().unwrap();
    s.stop().unwrap();
    let st = s.status(None);
    assert!(!st.is_recording && st.is_paused);
}

#[test]
fn clear_then_save_refused_law() {
    let mut s = recording_session();
    s.append_captured(vec![1]);
    s.stop().unwrap();
    assert_eq!(s.clear().unwrap(), "Recording buffer cleared");
    assert_eq!(s.save_request("a.wav"), Err(SessionError::NoAudioData));
}

#[test]
fn capture_accumulates_law() {
    let mut s = recording_session();
    s.append_captured(vec![1, 2]);
    s.append_captured(vec![]);
    s.append_captured(vec![3]);
    assert_eq!(s.samples(), &vec![1, 2, 3]);
    assert_eq!(s.status(Some(2)).buffer_size, 3);
    assert_eq!(s.status(Some(2)).duration_seconds, 2);
    assert_eq!(s.status(None).duration_seconds, 0);
    assert_eq!(s.save_request("out.ogg"), Ok(SaveFormat::OggOpus));
}

#[test]
fn recording_kept_law() {
    let mut s = recording_session();
    s.append_captured(vec![7, 8]);
    s.pause().unwrap();
    s.resume().unwrap();
    s.set_format(8000, 1);
    s.capture_started();
    s.stop().unwrap();
    assert_eq!(s.samples(), &vec![7, 8]);
}

#[test]
fn pause_records_nothing_law() {
    let mut s = recording_session();
    s.append_captured(vec![1, 2]);
    s.pause().unwrap();
    s.append_captured(vec![3, 4]);
    assert_eq!(s.capture_action(), CaptureAction::Drain);
    s.stop().unwrap();
    s.append_captured(vec![5]);
    assert_eq!(s.samples(), &vec![1, 2]);
    assert_eq!(s.status(None).buffer_size, 2);
}

#[test]
fn resume_records_again() {
    let mut s = recording_session();
    s.pause().unwrap();
    s.append_captured(vec![3]);
    s.resume().unwrap();
    s.append_captured(vec![4]);
    assert_eq!(s.samples(), &vec![4]);
}

#[test]
fn cleared_stays_empty_law() {
    let mut s = recording_session();
    s.append_captured(vec![1, 2, 3]);
    s.stop().unwrap();
    s.clear().unwrap();
    s.append_captured(vec![9]);
    assert_eq!(s.pause(), Err(SessionError::NotRecording));
    assert_eq!(s.begin_start(), Ok(()));
    s.set_format(48000, 2);
    s.append_captured(vec![7, 8]);
    assert_eq!(s.save_request("x.ogg"), Err(SessionError::NoAudioData));
}

#[test]
fn recording_frames_law() {
    let mut s: Session<i16> = Session::new();
    s.begin_start().unwrap();
    s.set_format(48000, 2);
    s.capture_started();
    s.append_captured(vec![1, 2, 3, 4]);
    s.pause().unwrap();
    s.append_captured(vec![5, 6]);
    s.resume().unwrap();
    s.append_captured(vec![7, 8]);
    s.stop().unwrap();
    assert_eq!(s.samples(), &vec![1, 2, 3, 4, 7, 8]);
    assert_eq!(s.samples().len() % s.channels() as usize, 0);
    assert_eq!(s.channels(), 2);
    assert_eq!(s.sample_rate(), 48000);
}

#[test]
fn save_request_refused_when_empty() {
    let s: Session<i16> = Session::new();
    assert_eq!(s.save_request("x.ogg"), Err(SessionError::NoAudioData));
}

#[test]
fn save_format_by_extension() {
    assert_eq!(save_format_for_path("meeting.ogg"), SaveFormat::OggOpus);
    assert_eq!(save_format_for_path("meeting.opus"), SaveFormat::OggOpus);
    assert_eq!(save_format_for_path("C:\\Rec\\MEETING.OGG"), SaveFormat::OggOpus);
    assert_eq!(save_format_for_path("talk.OpUs"), SaveFormat::OggOpus);
    assert_eq!(save_format_for_path("meeting.wav"), SaveFormat::Wav);
    assert_eq!(save_format_for_path("meeting.ogg.wav"), SaveFormat::Wav);
    assert_eq!(save_format_for_path("meeting"), SaveFormat::Wav);
    assert_eq!(save_format_for_path("ogg"), SaveFormat::Wav);
    assert_eq!(save_format_for_path(".ogg"), SaveFormat::OggOpus);
    assert_eq!(save_format_for_path("été.ogg"), SaveFormat::OggOpus);
    assert_eq!(save_format_for_path(""), SaveFormat::Wav);
}

#[test]
fn save_format_ignores_case_law() {
    for p in ["a.ogg", "b.opus", "c.wav", "d.oPuS", "e.OgG"] {
        assert_eq!(save_format_for_path(p), save_format_for_path(&p.to_uppercase()));
        assert_eq!(save_format_for_path(p), save_format_for_path(&p.to_lowercase()));
    }
}

#[test]
fn error_messages() {
    assert_eq!(SessionError::AlreadyRecording.message(), "Already recording");
    assert_eq!(SessionError::NotRecording.message(), "Not recording");
    assert_eq!(SessionError::CannotClearWhileRecording.message(), "Cannot clear while recording");
    assert_eq!(SessionError::NoAudioData.message(), "No audio data to save");
}

#[test]
fn start_and_stop_messages() {
    assert_eq!(start_message(48000, 2, true), "Recording started at 48000 Hz, 2 ch, loopback + mic");
    assert_eq!(start_message(44100, 1, false), "Recording started at 44100 Hz, 1 ch, loopback (no mic)");
    assert_eq!(stop_message(0), "Recording stopped. Duration: 0 seconds");
    assert_eq!(stop_message(3725), "Recording stopped. Duration: 3725 seconds");
}

#[test]
fn decimal_matches_to_string() {
    for n in [0u64, 7, 10, 99, 100, 65535, 4294967296, u64::MAX] {
        assert_eq!(decimal_string(n), n.to_string());
    }
}

#[test]
fn capture_mode_settings() {
    assert_eq!(
        CaptureMode::Loopback.stream_settings(),
        StreamSettings { flow: EndpointFlow::Render, loopback: true }
    );
    assert_eq!(
        CaptureMode::Microphone.stream_settings(),
        StreamSettings { flow: EndpointFlow::Capture, loopback: false }
    );
}
