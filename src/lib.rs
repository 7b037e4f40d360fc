//! Streaming playback engine for synthesized speech, with the small pieces of
//! configuration and protocol handling that surround it.

pub mod api_key;
pub mod device;
pub mod http_api;
pub mod http_config;
pub mod manager;
pub mod pcm;
pub mod playback;
pub mod render;
pub mod sample;
pub mod tts_error;
pub mod tts_stream;
