//! Multi-channel dispatch, impulse loading, and the de-interleaver.

use convolution::convolution::Convolution;
use convolution::ui::deinterleave;

fn bits_of(samples: &[f32]) -> Vec<u32> {
    samples.iter().map(|s| s.to_bits()).collect()
}

fn floats_of(bits: &[u32]) -> Vec<f32> {
    bits.iter().map(|b| f32::from_bits(*b)).collect()
}

#[test]
fn s4_no_cross_channel_interference() {
    let ir_left: Vec<f32> = (0..256).map(|i| ((i * 7 % 31) as f32 - 15.0) / 15.0).collect();
    let ir_right: Vec<f32> = (0..256).map(|i| ((i * 11 % 29) as f32 - 14.0) / 14.0).collect();
    let mut conv = Convolution::new(128);
    conv.load_impulse_response(&vec![bits_of(&ir_left), bits_of(&ir_right)]);

    let signal: Vec<f32> = (0..512).map(|i| ((i * 13 % 71) as f32 - 35.0) / 35.0).collect();
    let silence = vec![0.0f32; 512];
    let input = vec![bits_of(&signal), bits_of(&silence)];
    let mut output = vec![vec![0u32; 512], vec![0u32; 512]];
    conv.process(&input, &mut output);

    let left = floats_of(&output[0]);
    let right = floats_of(&output[1]);
    assert!(left.iter().any(|s| s.abs() > 1e-3));
    for s in right {
        assert_eq!(s.abs(), 0.0);
    }
}

#[test]
fn empty_impulse_is_rejected() {
    let mut conv = Convolution::new(64);
    conv.load_impulse_response(&Vec::new());
    // Without engines, process leaves the output planes untouched.
    let input = vec![vec![1.0f32.to_bits(); 8]];
    let mut output = vec![vec![7u32; 8]];
    conv.process(&input, &mut output);
    assert_eq!(output[0], vec![7u32; 8]);
}

#[test]
fn extra_channels_are_dropped() {
    let ir = vec![1.0f32, 0.5, 0.25];
    let planes = vec![bits_of(&ir), bits_of(&ir), bits_of(&ir), bits_of(&ir)];
    let mut conv = Convolution::new(32);
    conv.load_impulse_response(&planes);

    // Only the first two output planes are written.
    let signal = vec![1.0f32, 0.0, 0.0, 0.0];
    let input = vec![
        bits_of(&signal),
        bits_of(&signal),
        bits_of(&signal),
        bits_of(&signal),
    ];
    let mut output = vec![vec![9u32; 4]; 4];
    conv.process(&input, &mut output);
    assert_ne!(output[0], vec![9u32; 4]);
    assert_ne!(output[1], vec![9u32; 4]);
    assert_eq!(output[2], vec![9u32; 4]);
    assert_eq!(output[3], vec![9u32; 4]);
}

#[test]
fn mono_impulse_convolves_first_plane() {
    let ir = vec![1.0f32];
    let mut conv = Convolution::new(16);
    conv.load_impulse_response(&vec![bits_of(&ir)]);
    let signal: Vec<f32> = (0..32).map(|i| (i as f32) / 8.0).collect();
    let input = vec![bits_of(&signal)];
    let mut output = vec![vec![0u32; 32]];
    conv.process(&input, &mut output);
    let got = floats_of(&output[0]);
    for (o, e) in got.iter().zip(signal.iter()) {
        assert!((o - e).abs() < 1e-6, "{o} vs {e}");
    }
}

#[test]
fn deinterleave_splits_even_and_odd() {
    let interleaved: Vec<u32> = vec![10, 20, 11, 21, 12, 22, 13];
    let (left, right) = deinterleave(&interleaved);
    assert_eq!(left, vec![10, 11, 12, 13]);
    assert_eq!(right, vec![20, 21, 22]);
}

#[test]
fn deinterleave_empty() {
    let (left, right) = deinterleave(&Vec::new());
    assert!(left.is_empty());
    assert!(right.is_empty());
}
