//! Errors of the speech-synthesis side and their user-facing messages.
use vstd::prelude::*;
use vstd::string::StringExecFns;

verus! {

/// What can go wrong while obtaining credentials or synthesizing speech.
#[derive(Debug)]
pub enum TTSError {
    ApiKeyNotFound,
    ApiKeyInvalid,
    NetworkError(String),
    WebSocketError(String),
    ApiError(String),
    ConfigError(String),
    AudioError(String),
    Storage(String),
    UnknownError(String),
}

pub type TTSResult<T> = Result<T, TTSError>;

/// The user-facing message of an error: a fixed text, or a fixed prefix and
/// the error's detail.
pub open spec fn error_text(e: TTSError) -> Seq<char> {
    match e {
        TTSError::ApiKeyNotFound => "APIキーが設定されていません"@,
        TTSError::ApiKeyInvalid => "APIキーが無効です"@,
        TTSError::NetworkError(m) => "ネットワークエラー: "@ + m@,
        TTSError::WebSocketError(m) => "WebSocketエラー: "@ + m@,
        TTSError::ApiError(m) => "APIエラー: "@ + m@,
        TTSError::ConfigError(m) => "設定エラー: "@ + m@,
        TTSError::AudioError(m) => "音声エラー: "@ + m@,
        TTSError::Storage(m) => "ストレージエラー: "@ + m@,
        TTSError::UnknownError(m) => "不明なエラー: "@ + m@,
    }
}

/// Whether `s` begins with `p`.
pub open spec fn starts_with(s: Seq<char>, p: Seq<char>) -> bool {
    p.len() <= s.len() && s.subrange(0, p.len() as int) == p
}

/// A text made of a prefix and a detail begins with the prefix.
pub proof fn lemma_concat_starts_with(p: Seq<char>, d: Seq<char>)
    ensures
        starts_with(p + d, p),
{
    assert((p + d).subrange(0, p.len() as int) == p);
}

fn prefixed(prefix: &str, detail: &String) -> (r: String)
    ensures
        r@ == prefix@ + detail@,
{
    String::from_str(prefix).concat(detail.as_str())
}

impl TTSError {
    /// The user-facing message of this error.
    pub fn message(&self) -> (r: String)
        ensures
            r@ == error_text(*self),
    {
        match self {
            TTSError::ApiKeyNotFound => String::from_str("APIキーが設定されていません"),
            TTSError::ApiKeyInvalid => String::from_str("APIキーが無効です"),
            TTSError::NetworkError(m) => prefixed("ネットワークエラー: ", m),
            TTSError::WebSocketError(m) => prefixed("WebSocketエラー: ", m),
            TTSError::ApiError(m) => prefixed("APIエラー: ", m),
            TTSError::ConfigError(m) => prefixed("設定エラー: ", m),
            TTSError::AudioError(m) => prefixed("音声エラー: ", m),
            TTSError::Storage(m) => prefixed("ストレージエラー: ", m),
            TTSError::UnknownError(m) => prefixed("不明なエラー: ", m),
        }
    }
}

} // verus!
