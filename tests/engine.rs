use taneyomi::device::{negotiate, DeviceConfig, DeviceFormat, EngineError};
use taneyomi::manager::{AudioManager, COMMAND_CAPACITY};
use taneyomi::playback::{AudioCommand, PlaybackState};
use taneyomi::render::{fan_out, Resampler, SOURCE_RATE};
use taneyomi::sample::{clamp_volume, scale_sample, to_i16, to_u16, SampleFormat, FIXED_ONE, U16_EQUILIBRIUM};

fn stopped_state() -> PlaybackState {
    let mut s = PlaybackState::new();
    s.apply(AudioCommand::Stop);
    s
}

#[test]
fn volume_is_clamped_into_range() {
    let mut s = PlaybackState::new();
    s.apply(AudioCommand::SetVolume(-5));
    assert_eq!(s.volume(), 0);
    s.apply(AudioCommand::SetVolume(40000));
    assert_eq!(s.volume(), FIXED_ONE);
    s.apply(AudioCommand::SetVolume(16384));
    assert_eq!(s.volume(), 16384);
    assert_eq!(clamp_volume(i32::MIN), 0);
    assert_eq!(clamp_volume(i32::MAX), FIXED_ONE);
}

#[test]
fn two_plays_concatenate_chunks() {
    let mut s = stopped_state();
    assert!(!s.is_playing());
    s.apply(AudioCommand::Play(vec![1, 2]));
    s.apply(AudioCommand::Play(vec![3]));
    assert_eq!(s.backlog(), vec![1, 2, 3]);
    assert!(s.is_playing());
}

#[test]
fn stop_clears_backlog_and_flag() {
    let mut s = PlaybackState::new();
    s.apply(AudioCommand::Play(vec![5, 6, 7]));
    s.apply(AudioCommand::SetVolume(100));
    s.apply(AudioCommand::Stop);
    assert_eq!(s.backlog_len(), 0);
    assert!(!s.is_playing());
    assert_eq!(s.volume(), 100);
}

#[test]
fn stopped_render_is_equilibrium_in_every_format() {
    for format in [SampleFormat::F32, SampleFormat::I16, SampleFormat::U16] {
        let mut s = stopped_state();
        let mut r = Resampler::new(48000, 2, format);
        let out = r.render(&mut s, 3);
        assert_eq!(out.len(), 6);
        for v in &out {
            assert_eq!(*v, 0);
            assert_eq!(to_i16(*v), 0);
            assert_eq!(to_u16(*v), U16_EQUILIBRIUM);
            assert_eq!((*v as f32) / (FIXED_ONE as f32), 0.0);
        }
        assert_eq!(r.cursor(), 0);
    }
}

#[test]
fn equal_rates_copy_backlog_one_to_one() {
    let mut s = PlaybackState::new();
    s.apply(AudioCommand::Play(vec![100, -200, 300, 400]));
    let mut r = Resampler::new(SOURCE_RATE, 1, SampleFormat::I16);
    let out = r.render(&mut s, 4);
    assert_eq!(out, vec![100, -200, 300, 400]);
    assert_eq!(r.cursor(), 0);
    assert_eq!(s.backlog_len(), 0);
}

#[test]
fn double_ratio_consumes_two_samples_per_frame() {
    let mut s = PlaybackState::new();
    s.apply(AudioCommand::Play(vec![0, FIXED_ONE, 2 * FIXED_ONE, 3 * FIXED_ONE]));
    let mut r = Resampler::new(22050, 1, SampleFormat::F32);
    let out = r.render(&mut s, 2);
    assert_eq!(out, vec![0, 2 * FIXED_ONE]);
    assert_eq!(r.cursor(), 0);
    assert_eq!(s.backlog_len(), 0);
}

#[test]
fn underrun_renders_silence() {
    let mut s = PlaybackState::new();
    let mut r = Resampler::new(48000, 2, SampleFormat::I16);
    assert_eq!(r.render(&mut s, 4), vec![0; 8]);
    s.apply(AudioCommand::Play(vec![1000]));
    let out = r.render(&mut s, 3);
    assert_eq!(out.len(), 6);
    assert_eq!(out[4], 0);
    assert_eq!(out[5], 0);
}

#[test]
fn end_to_end_half_volume_at_48000() {
    let config = DeviceConfig { sample_rate: 48000, channels: 2, format: DeviceFormat::F32 };
    let mut r = negotiate(Some(config)).unwrap();
    assert_eq!(r.device_rate(), 48000);
    assert_eq!(r.channels(), 2);
    assert_eq!(r.format(), SampleFormat::F32);
    let mut s = PlaybackState::new();
    s.apply(AudioCommand::Play(vec![FIXED_ONE; 4]));
    s.apply(AudioCommand::SetVolume(FIXED_ONE / 2));
    let out = r.render(&mut s, 2);
    assert_eq!(out.len(), 4);
    for v in out {
        let f = v as f32 / FIXED_ONE as f32;
        assert!((f - 0.5).abs() < 1e-3);
    }
    assert_eq!(r.cursor(), 44100 + 44100 - 48000);
    assert_eq!(s.backlog_len(), 3);
}

#[test]
fn interpolates_halfway_between_samples() {
    let mut s = PlaybackState::new();
    s.apply(AudioCommand::Play(vec![0, FIXED_ONE, FIXED_ONE]));
    let mut r = Resampler::new(88200, 1, SampleFormat::F32);
    assert_eq!(r.render(&mut s, 2), vec![0, FIXED_ONE / 2]);
    assert_eq!(r.cursor(), 0);
    assert_eq!(s.backlog(), vec![FIXED_ONE, FIXED_ONE]);
}

#[test]
fn last_sample_is_held_without_successor() {
    let mut s = PlaybackState::new();
    s.apply(AudioCommand::Play(vec![1000]));
    let mut r = Resampler::new(88200, 1, SampleFormat::F32);
    assert_eq!(r.render(&mut s, 2), vec![1000, 1000]);
}

#[test]
fn cursor_persists_across_stop() {
    let mut s = PlaybackState::new();
    s.apply(AudioCommand::Play(vec![0, 0, 0, 0]));
    let mut r = Resampler::new(48000, 1, SampleFormat::I16);
    let _ = r.render(&mut s, 1);
    assert_eq!(r.cursor(), 44100);
    s.apply(AudioCommand::Stop);
    let _ = r.render(&mut s, 5);
    assert_eq!(r.cursor(), 44100);
}

#[test]
fn negotiation_errors() {
    assert_eq!(negotiate(None).err(), Some(EngineError::DeviceUnavailable));
    let f64_device = DeviceConfig { sample_rate: 48000, channels: 2, format: DeviceFormat::F64 };
    assert_eq!(negotiate(Some(f64_device)).err(), Some(EngineError::UnsupportedFormat));
    let no_rate = DeviceConfig { sample_rate: 0, channels: 2, format: DeviceFormat::I16 };
    assert_eq!(negotiate(Some(no_rate)).err(), Some(EngineError::UnsupportedFormat));
    let u16_device = DeviceConfig { sample_rate: 44100, channels: 1, format: DeviceFormat::U16 };
    assert_eq!(negotiate(Some(u16_device)).unwrap().format(), SampleFormat::U16);
}

#[test]
fn facade_delivers_commands_in_order() {
    let (tx, rx) = crossbeam_channel::bounded(COMMAND_CAPACITY);
    let mut manager = AudioManager::new(tx);
    assert!(manager.play_audio(vec![1, 2]).is_ok());
    assert!(manager.set_volume(7).is_ok());
    assert!(manager.stop().is_ok());
    assert!(matches!(rx.recv().unwrap(), AudioCommand::Play(v) if v == vec![1, 2]));
    assert!(matches!(rx.recv().unwrap(), AudioCommand::SetVolume(7)));
    assert!(matches!(rx.recv().unwrap(), AudioCommand::Stop));
    drop(rx);
    assert_eq!(manager.stop(), Err(EngineError::ChannelClosed));
}

#[test]
fn fan_out_duplicates_into_every_channel() {
    assert_eq!(fan_out(&vec![1, 2], 3), vec![1, 1, 1, 2, 2, 2]);
    assert_eq!(fan_out(&vec![], 2), Vec::<i32>::new());
}

#[test]
fn sample_conversions() {
    assert_eq!(scale_sample(-3, 16384), -1);
    assert_eq!(scale_sample(3, 16384), 1);
    assert_eq!(scale_sample(i32::MIN, FIXED_ONE), i32::MIN);
    assert_eq!(to_i16(40000), 32767);
    assert_eq!(to_i16(-40000), -32768);
    assert_eq!(to_u16(-40000), 0);
    assert_eq!(to_u16(40000), 65535);
    assert_eq!(to_u16(-1), 32767);
}

#[test]
fn command_constructors_build_matching_commands() {
    assert!(matches!(AudioCommand::play(vec![4, 5]), AudioCommand::Play(v) if v == vec![4, 5]));
    assert!(matches!(AudioCommand::stop(), AudioCommand::Stop));
    assert!(matches!(AudioCommand::set_volume(-9), AudioCommand::SetVolume(-9)));
}

#[test]
fn batch_applies_in_order() {
    let mut s = PlaybackState::new();
    s.apply_all(&vec![
        AudioCommand::Play(vec![1, 2]),
        AudioCommand::Stop,
        AudioCommand::Play(vec![3]),
        AudioCommand::SetVolume(99999),
        AudioCommand::Play(vec![4]),
    ]);
    assert_eq!(s.backlog(), vec![3, 4]);
    assert!(s.is_playing());
    assert_eq!(s.volume(), FIXED_ONE);
    s.apply_all(&vec![AudioCommand::Play(vec![5]), AudioCommand::Stop]);
    assert_eq!(s.backlog_len(), 0);
    assert!(!s.is_playing());
}

#[test]
fn facade_and_processor_keep_send_order() {
    let (tx, rx) = crossbeam_channel::bounded(COMMAND_CAPACITY);
    let mut manager = AudioManager::new(tx);
    manager.play_audio(vec![10, 20]).unwrap();
    manager.set_volume(100).unwrap();
    manager.play_audio(vec![30]).unwrap();
    let received: Vec<AudioCommand> = rx.try_iter().collect();
    let mut s = PlaybackState::new();
    s.apply_all(&received);
    assert_eq!(s.backlog(), vec![10, 20, 30]);
    assert_eq!(s.volume(), 100);
}

#[test]
fn constant_backlog_renders_constant_output_at_any_rate() {
    for rate in [8000u32, 22050, 44100, 48000, 96000] {
        let mut s = PlaybackState::new();
        s.apply(AudioCommand::Play(vec![20000; 16]));
        s.apply(AudioCommand::SetVolume(FIXED_ONE / 4));
        let mut r = Resampler::new(rate, 1, SampleFormat::I16);
        let out = r.render(&mut s, 3);
        for v in out {
            assert_eq!(v, 5000);
        }
    }
}
