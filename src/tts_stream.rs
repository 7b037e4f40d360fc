//! Interpretation of the messages the speech service streams back.
use vstd::prelude::*;
use vstd::string::StringExecFns;
use base64::DecodeError;
use base64::Engine;
use crate::tts_error::{lemma_concat_starts_with, starts_with, TTSError};

verus! {

/// A message of the synthesis stream, as parsed from its JSON text.
#[derive(Debug)]
pub struct TtsMessage {
    pub response_type: String,
    pub data: Option<String>,
    pub error: Option<String>,
}

/// What the receiving loop does with a message.
#[derive(Debug)]
pub enum StreamStep {
    /// Hand these PCM bytes to the player.
    Audio(Vec<u8>),
    /// The synthesis is complete.
    Finished,
    /// Nothing to do for this message.
    Skip,
}

/// The bytes that standard base64 (with padding) decodes a text to, or
/// `None` when the text is not valid standard base64.
pub uninterp spec fn base64_decoded(s: Seq<char>) -> Option<Seq<u8>>;

#[verifier::external_type_specification]
#[verifier::external_body]
pub struct ExDecodeError(DecodeError);

/// Relies on base64's STANDARD engine `decode`: the decoded bytes, or an error
/// when the text is not valid standard base64.
#[verifier::external_body]
fn decode_base64(s: &str) -> (r: Result<Vec<u8>, DecodeError>)
    ensures
        match r {
            Ok(v) => base64_decoded(s@) == Some(v@),
            Err(_) => base64_decoded(s@) is None,
        },
{
    base64::engine::general_purpose::STANDARD.decode(s)
}

/// Relies on the Display formatting of base64::DecodeError, for error messages.
#[verifier::external_body]
fn decode_error_text(e: &DecodeError) -> (r: String) {
    e.to_string()
}

/// The message a failed synthesis is reported with.
pub open spec fn service_error_text(error: Option<String>) -> Seq<char> {
    match error {
        Some(e) => e@,
        None => "Unknown error"@,
    }
}

pub open spec fn decode_failure_prefix() -> Seq<char> {
    "Failed to decode audio: "@
}

/// The step for an audio chunk once its payload has been decoded, or has
/// failed to decode with the given description.
pub fn audio_step(decoded: Result<Vec<u8>, String>) -> (r: Result<StreamStep, TTSError>)
    ensures
        decoded matches Ok(v) ==> r matches Ok(StreamStep::Audio(w)) && w@ == v@,
        decoded matches Err(e) ==> r matches Err(TTSError::AudioError(m)) && m@ == decode_failure_prefix() + e@,
{
    match decoded {
        Ok(v) => Ok(StreamStep::Audio(v)),
        Err(e) => Err(TTSError::AudioError(String::from_str("Failed to decode audio: ").concat(e.as_str()))),
    }
}

/// Interprets one message: a `chunk` carries base64 PCM bytes, `done` ends
/// the stream, `error` fails it with the service's message, and anything
/// else is passed over.
pub fn interpret_message(msg: &TtsMessage) -> (r: Result<StreamStep, TTSError>)
    ensures
        msg.response_type@ == "chunk"@ ==> match msg.data {
            None => r matches Ok(StreamStep::Skip),
            Some(d) => match base64_decoded(d@) {
                Some(bytes) => r matches Ok(StreamStep::Audio(w)) && w@ == bytes,
                None => r matches Err(TTSError::AudioError(m)) && starts_with(m@, decode_failure_prefix()),
            },
        },
        msg.response_type@ == "done"@ ==> r matches Ok(StreamStep::Finished),
        msg.response_type@ == "error"@ ==> (r matches Err(TTSError::ApiError(m)) && m@ == service_error_text(
            msg.error,
        )),
        msg.response_type@ != "chunk"@ && msg.response_type@ != "done"@ && msg.response_type@
            != "error"@ ==> r matches Ok(StreamStep::Skip),
{
    proof {
        reveal_strlit("chunk");
        reveal_strlit("done");
        reveal_strlit("error");
        assert("done"@.len() == 4 && "chunk"@.len() == 5 && "error"@.len() == 5);
        assert("done"@ != "chunk"@);
        assert("error"@[0] != "chunk"@[0]);
        assert("error"@ != "chunk"@ && "error"@ != "done"@);
    }
    let t = &msg.response_type;
    if *t == String::from_str("chunk") {
        match &msg.data {
            None => Ok(StreamStep::Skip),
            Some(d) => {
                let decoded = match decode_base64(d.as_str()) {
                    Ok(v) => Ok(v),
                    Err(e) => Err(decode_error_text(&e)),
                };
                proof {
                    if decoded is Err {
                        lemma_concat_starts_with(decode_failure_prefix(), decoded->Err_0@);
                    }
                }
                audio_step(decoded)
            },
        }
    } else if *t == String::from_str("done") {
        Ok(StreamStep::Finished)
    } else if *t == String::from_str("error") {
        match &msg.error {
            Some(e) => Err(TTSError::ApiError(e.clone())),
            None => Err(TTSError::ApiError(String::from_str("Unknown error"))),
        }
    } else {
        Ok(StreamStep::Skip)
    }
}

} // verus!
