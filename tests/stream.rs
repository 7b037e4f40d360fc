use taneyomi::tts_error::TTSError;
use taneyomi::tts_stream::{audio_step, interpret_message, StreamStep, TtsMessage};

fn msg(t: &str, data: Option<&str>, error: Option<&str>) -> TtsMessage {
    TtsMessage {
        response_type: t.to_string(),
        data: data.map(|d| d.to_string()),
        error: error.map(|e| e.to_string()),
    }
}

#[test]
fn chunk_is_decoded() {
    match interpret_message(&msg("chunk", Some("AQID"), None)) {
        Ok(StreamStep::Audio(bytes)) => assert_eq!(bytes, vec![1, 2, 3]),
        other => panic!("unexpected {:?}", other),
    }
    assert!(matches!(interpret_message(&msg("chunk", None, None)), Ok(StreamStep::Skip)));
}

#[test]
fn bad_base64_is_audio_error() {
    match interpret_message(&msg("chunk", Some("!!!"), None)) {
        Err(TTSError::AudioError(m)) => assert!(m.starts_with("Failed to decode audio: ")),
        other => panic!("unexpected {:?}", other),
    }
}

#[test]
fn done_error_and_other_messages() {
    assert!(matches!(interpret_message(&msg("done", None, None)), Ok(StreamStep::Finished)));
    match interpret_message(&msg("error", None, Some("bad voice"))) {
        Err(TTSError::ApiError(m)) => assert_eq!(m, "bad voice"),
        other => panic!("unexpected {:?}", other),
    }
    match interpret_message(&msg("error", None, None)) {
        Err(TTSError::ApiError(m)) => assert_eq!(m, "Unknown error"),
        other => panic!("unexpected {:?}", other),
    }
    assert!(matches!(interpret_message(&msg("timestamps", None, None)), Ok(StreamStep::Skip)));
}

#[test]
fn audio_step_outcomes() {
    assert!(matches!(audio_step(Ok(vec![9])), Ok(StreamStep::Audio(v)) if v == vec![9]));
    match audio_step(Err("short".to_string())) {
        Err(TTSError::AudioError(m)) => assert_eq!(m, "Failed to decode audio: short"),
        other => panic!("unexpected {:?}", other),
    }
}
