use tts::engine::Piper;
use tts::error::TtsError;
use tts::model::{LoadOutcome, Phase, Progress, Shutdown};

fn started() -> Piper {
    Piper::start(true).unwrap()
}

#[test]
fn start_gives_a_running_engine() {
    let piper = started();
    assert_eq!(piper.phase(), Phase::Running);
    assert!(!piper.is_loaded());
}

#[test]
fn failed_spawn_gives_spawn_error() {
    assert_eq!(Piper::start(false).err(), Some(TtsError::SpawnError));
}

#[test]
fn generate_audio_returns_the_frame_and_waits() {
    let mut piper = started();
    let frame = piper.generate_audio("Hello world");
    assert_eq!(frame, b"Hello world\n".to_vec());
    assert_eq!(piper.phase(), Phase::AwaitingCompletion);
}

#[test]
fn chatter_keeps_the_request_pending() {
    let mut piper = started();
    piper.generate_audio("Hello world");
    assert_eq!(piper.observe(Some(b"Loading model...")), Ok(Progress::Pending));
    assert_eq!(piper.phase(), Phase::AwaitingCompletion);
    assert_eq!(piper.observe(Some(b"")), Ok(Progress::Pending));
    assert_eq!(piper.phase(), Phase::AwaitingCompletion);
}

#[test]
fn completion_line_ends_the_request() {
    let mut piper = started();
    piper.generate_audio("Hello world");
    assert_eq!(piper.observe(Some(b"Real-time factor: 0.12\n")), Ok(Progress::Complete));
    assert_eq!(piper.phase(), Phase::Running);
}

#[test]
fn end_of_stream_is_stream_closed() {
    let mut piper = started();
    piper.generate_audio("Hello world");
    assert_eq!(piper.observe(None), Err(TtsError::StreamClosed));
    assert_eq!(piper.phase(), Phase::AwaitingCompletion);
}

#[test]
fn engine_takes_a_second_request_after_the_first() {
    let mut piper = started();
    piper.generate_audio("one");
    assert_eq!(piper.observe(Some(b"Real-time")), Ok(Progress::Complete));
    let frame = piper.generate_audio("two");
    assert_eq!(frame, b"two\n".to_vec());
    assert_eq!(piper.observe(Some(b"chatter")), Ok(Progress::Pending));
    assert_eq!(piper.observe(Some(b"x Real-time y")), Ok(Progress::Complete));
    assert_eq!(piper.phase(), Phase::Running);
}

#[test]
fn end_asks_for_the_kill_once() {
    let mut piper = started();
    assert_eq!(piper.end(), Shutdown::Kill);
    assert_eq!(piper.phase(), Phase::Terminated);
    assert_eq!(piper.end(), Shutdown::Nothing);
    assert_eq!(piper.phase(), Phase::Terminated);
    assert_eq!(piper.end(), Shutdown::Nothing);
}

#[test]
fn end_while_a_request_is_in_flight() {
    let mut piper = started();
    piper.generate_audio("Hello world");
    assert_eq!(piper.end(), Shutdown::Kill);
    assert_eq!(piper.phase(), Phase::Terminated);
}

#[test]
fn end_after_the_process_died() {
    let mut piper = started();
    piper.generate_audio("Hello world");
    assert_eq!(piper.observe(Some(b"Loading model...")), Ok(Progress::Pending));
    assert_eq!(piper.observe(None), Err(TtsError::StreamClosed));
    assert_eq!(piper.end(), Shutdown::Kill);
    assert_eq!(piper.phase(), Phase::Terminated);
    assert_eq!(piper.end(), Shutdown::Nothing);
}

#[test]
fn decoded_artifact_is_played() {
    let mut piper = started();
    assert_eq!(piper.play(LoadOutcome::Decoded), Ok(()));
    assert!(piper.is_loaded());
    assert_eq!(piper.phase(), Phase::Running);
}

#[test]
fn missing_artifact_is_decode_error() {
    let mut piper = started();
    assert_eq!(piper.play(LoadOutcome::Missing), Err(TtsError::DecodeError));
    assert!(!piper.is_loaded());
}

#[test]
fn unreadable_artifact_is_decode_error() {
    let mut piper = started();
    assert_eq!(piper.play(LoadOutcome::Unreadable), Err(TtsError::DecodeError));
    assert!(!piper.is_loaded());
}

#[test]
fn each_load_overwrites_the_buffer_state() {
    let mut piper = started();
    assert_eq!(piper.play(LoadOutcome::Decoded), Ok(()));
    assert!(piper.is_loaded());
    assert_eq!(piper.play(LoadOutcome::Missing), Err(TtsError::DecodeError));
    assert!(!piper.is_loaded());
    assert_eq!(piper.play(LoadOutcome::Decoded), Ok(()));
    assert!(piper.is_loaded());
}

#[test]
fn play_does_not_touch_the_process() {
    let mut piper = started();
    piper.generate_audio("Hello world");
    assert_eq!(piper.play(LoadOutcome::Unreadable), Err(TtsError::DecodeError));
    assert_eq!(piper.phase(), Phase::AwaitingCompletion);
    assert_eq!(piper.end(), Shutdown::Kill);
    assert_eq!(piper.play(LoadOutcome::Decoded), Ok(()));
    assert_eq!(piper.phase(), Phase::Terminated);
}
