use taneyomi::pcm::{decode_pcm_f32le, fixed_from_f32_bits};

fn bytes_of(samples: &[f32]) -> Vec<u8> {
    samples.iter().flat_map(|s| s.to_le_bytes()).collect()
}

#[test]
fn decodes_common_values() {
    let bytes = bytes_of(&[1.0, 0.5, -1.0, 0.0, -0.25]);
    assert_eq!(decode_pcm_f32le(&bytes), vec![32768, 16384, -32768, 0, -8192]);
}

#[test]
fn trailing_bytes_are_dropped() {
    let mut bytes = bytes_of(&[1.0, 0.5]);
    bytes.push(0x12);
    assert_eq!(decode_pcm_f32le(&bytes), vec![32768, 16384]);
    assert_eq!(decode_pcm_f32le(&[1, 2, 3]), Vec::<i32>::new());
}

#[test]
fn special_values_saturate_or_vanish() {
    assert_eq!(fixed_from_f32_bits(f32::INFINITY.to_bits()), i32::MAX);
    assert_eq!(fixed_from_f32_bits(f32::NEG_INFINITY.to_bits()), -i32::MAX);
    assert_eq!(fixed_from_f32_bits(f32::NAN.to_bits()), 0);
    assert_eq!(fixed_from_f32_bits(1.0e10f32.to_bits()), i32::MAX);
    assert_eq!(fixed_from_f32_bits(1.0e-30f32.to_bits()), 0);
    assert_eq!(fixed_from_f32_bits((-0.0f32).to_bits()), 0);
}

#[test]
fn matches_truncating_float_scaling() {
    let values = [0.123f32, -0.987, 0.999_999, 3.75, -65535.5, 1.0 / 3.0, 2.0e-5, 60000.0];
    for v in values {
        let expected = (v * 32768.0) as i32;
        let got = fixed_from_f32_bits(v.to_bits());
        if v.abs() * 32768.0 < i32::MAX as f32 {
            assert_eq!(got, expected, "value {}", v);
        } else {
            assert_eq!(got.abs(), i32::MAX);
        }
    }
}
