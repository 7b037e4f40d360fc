//! Output configuration negotiation and the engine's error taxonomy.
use vstd::prelude::*;
use crate::render::{Resampler, ResamplerModel};
use crate::sample::SampleFormat;

verus! {

/// Errors reported by the engine to its callers.
#[derive(Clone, Copy, Debug, PartialEq, Eq, Structural)]
pub enum EngineError {
    /// No output device exists.
    DeviceUnavailable,
    /// The device offers none of the sample representations the renderer can write.
    UnsupportedFormat,
    /// The command processor is gone; no command can be delivered any more.
    ChannelClosed,
}

/// The sample representations an audio stack may report for a device.
#[derive(Clone, Copy, Debug, PartialEq, Eq, Structural)]
pub enum DeviceFormat {
    I8,
    I16,
    I32,
    I64,
    U8,
    U16,
    U32,
    U64,
    F32,
    F64,
}

/// The default output configuration a device reports.
#[derive(Clone, Copy, Debug, PartialEq, Eq, Structural)]
pub struct DeviceConfig {
    pub sample_rate: u32,
    pub channels: u16,
    pub format: DeviceFormat,
}

/// The renderer's representation for a device format, if it has one.
pub open spec fn renderable(format: DeviceFormat) -> Option<SampleFormat> {
    match format {
        DeviceFormat::F32 => Some(SampleFormat::F32),
        DeviceFormat::I16 => Some(SampleFormat::I16),
        DeviceFormat::U16 => Some(SampleFormat::U16),
        _ => None,
    }
}

/// Picks the renderer's representation for a device format.
pub fn sample_format_for(format: DeviceFormat) -> (r: Option<SampleFormat>)
    ensures
        r == renderable(format),
{
    match format {
        DeviceFormat::F32 => Some(SampleFormat::F32),
        DeviceFormat::I16 => Some(SampleFormat::I16),
        DeviceFormat::U16 => Some(SampleFormat::U16),
        _ => None,
    }
}

/// The outcome of negotiation: no device is `DeviceUnavailable`; a format the
/// renderer cannot write, or a rate or channel count of zero, is
/// `UnsupportedFormat`; otherwise a renderer for the device's rate, channels and
/// format, with its cursor at zero.
pub open spec fn negotiated(device: Option<DeviceConfig>) -> Result<ResamplerModel, EngineError> {
    match device {
        None => Err(EngineError::DeviceUnavailable),
        Some(c) => match renderable(c.format) {
            None => Err(EngineError::UnsupportedFormat),
            Some(f) => if c.sample_rate == 0 || c.channels == 0 {
                Err(EngineError::UnsupportedFormat)
            } else {
                Ok(ResamplerModel {
                    device_rate: c.sample_rate as nat,
                    channels: c.channels as nat,
                    format: f,
                    cursor: 0,
                })
            },
        },
    }
}

/// A device that reports a format the renderer can write, a positive rate and
/// at least one channel is accepted, and the renderer runs at the device's
/// rate, advancing `SOURCE_RATE / sample_rate` source samples per frame.
pub proof fn lemma_negotiation_succeeds(c: DeviceConfig)
    requires
        renderable(c.format) is Some,
        c.sample_rate > 0,
        c.channels > 0,
    ensures
        negotiated(Some(c)) matches Ok(m) && m.device_rate == c.sample_rate && m.channels == c.channels
            && m.cursor == 0 && Some(m.format) == renderable(c.format),
{
}

/// Negotiates the renderer for the default output device, given the
/// configuration it reports (`None` when there is no device). A configuration
/// with no frames per second or no channels cannot be rendered to.
pub fn negotiate(device: Option<DeviceConfig>) -> (r: Result<Resampler, EngineError>)
    ensures
        match r {
            Ok(res) => negotiated(device) == Ok::<ResamplerModel, EngineError>(res@) && res@.wf(),
            Err(e) => negotiated(device) == Err::<ResamplerModel, EngineError>(e),
        },
{
    match device {
        None => Err(EngineError::DeviceUnavailable),
        Some(c) => match sample_format_for(c.format) {
            None => Err(EngineError::UnsupportedFormat),
            Some(f) => {
                if c.sample_rate == 0 || c.channels == 0 {
                    Err(EngineError::UnsupportedFormat)
                } else {
                    Ok(Resampler::new(c.sample_rate, c.channels, f))
                }
            },
        },
    }
}

} // verus!
