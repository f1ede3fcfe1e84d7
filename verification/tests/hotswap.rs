//! The hot-swap plane: messages through the real queue, atomic installs,
//! and the FFT façade driven directly.

use convolution::fft::FFT;
use convolution::plugin::{audio_callback, build_engines, AudioPlugin, Message};
use convolution::ui::UI;

fn bits_of(samples: &[f32]) -> Vec<u32> {
    samples.iter().map(|s| s.to_bits()).collect()
}

fn floats_of(bits: &[u32]) -> Vec<f32> {
    bits.iter().map(|b| f32::from_bits(*b)).collect()
}

#[test]
fn s5_hot_swap_is_atomic() {
    let ir_a: Vec<f32> = (0..600).map(|i| ((i * 3 % 23) as f32 - 11.0) / 11.0).collect();
    let ir_b: Vec<f32> = (0..600).map(|i| ((i * 5 % 19) as f32 - 9.0) / 9.0).collect();
    let block = 1024usize;

    let (tx, rx) = crossbeam::channel::bounded::<Message>(1024);
    let ui = UI::new(tx);

    // Run the callback loop with impulse A installed.
    let mut plugin = AudioPlugin::new();
    plugin.swap(build_engines(&vec![bits_of(&ir_a)], block));

    let blocks: Vec<Vec<f32>> = (0..200)
        .map(|b| (0..block).map(|i| (((b * block + i) * 7 % 61) as f32 - 30.0) / 30.0).collect())
        .collect();

    let mut outputs: Vec<Vec<f32>> = Vec::new();
    for (i, blk) in blocks.iter().enumerate() {
        if i == 100 {
            // The worker finished building the replacement: enqueue it.
            ui.send_message(Message::Engine(build_engines(&vec![bits_of(&ir_b)], block)))
                .ok()
                .unwrap();
        }
        let msg = rx.try_recv().ok();
        let input = vec![bits_of(blk)];
        let mut output = vec![vec![0u32; block]];
        let pending = audio_callback(&mut plugin, msg, &input, &mut output);
        assert!(pending.is_none());
        outputs.push(floats_of(&output[0]));
    }

    // Reference: a run that installed B strictly before callback 100.
    let mut reference = AudioPlugin::new();
    reference.swap(build_engines(&vec![bits_of(&ir_a)], block));
    for (i, blk) in blocks.iter().enumerate() {
        if i == 100 {
            reference.swap(build_engines(&vec![bits_of(&ir_b)], block));
        }
        let input = vec![bits_of(blk)];
        let mut output = vec![vec![0u32; block]];
        reference.process(&input, &mut output);
        // Within one process the engines are deterministic: the callback
        // after the enqueue is bit-identical to the pre-installed run.
        assert_eq!(outputs[i], floats_of(&output[0]), "callback {i} mixed convolvers");
    }
}

#[test]
fn impulse_bytes_are_handed_back() {
    let mut plugin = AudioPlugin::new();
    let bytes = vec![1u8, 2, 3, 4];
    let input = vec![vec![0u32; 16]];
    let mut output = vec![vec![5u32; 16]];
    let pending = audio_callback(&mut plugin, Some(Message::Impulse(bytes.clone())), &input, &mut output);
    assert_eq!(pending, Some(bytes));
    // No convolver installed: the output plane is untouched.
    assert_eq!(output[0], vec![5u32; 16]);
}

#[test]
fn build_engines_keeps_two_channels() {
    let chan = bits_of(&vec![1.0f32; 10]);
    let engines = build_engines(&vec![chan.clone(), chan.clone(), chan.clone()], 64);
    assert_eq!(engines.len(), 2);
    let engines = build_engines(&vec![chan], 64);
    assert_eq!(engines.len(), 1);
    let engines = build_engines(&Vec::new(), 64);
    assert_eq!(engines.len(), 0);
}

#[test]
fn fft_roundtrip_recovers_signal() {
    let n = 64usize;
    let mut fft = FFT::new(n);
    let signal: Vec<f32> = (0..n).map(|i| ((i * 3 % 13) as f32 - 6.0) / 6.0).collect();
    let mut spectrum: Vec<(u32, u32)> = Vec::new();
    fft.forward_transform(&bits_of(&signal), &mut spectrum);
    assert_eq!(spectrum.len(), n / 2 + 1);
    // A forward transform that handed its input back unchanged could not
    // satisfy this: the inverse of the spectrum, scaled by 1/n, must match.
    let mut back: Vec<u32> = Vec::new();
    fft.inverse_transform(&spectrum, &mut back);
    assert_eq!(back.len(), n);
    for (b, s) in floats_of(&back).iter().zip(signal.iter()) {
        assert!((b / n as f32 - s).abs() < 1e-5, "{b} vs {s}");
    }
    // The DC bin of the spectrum is the sum of the samples.
    let sum: f32 = signal.iter().sum();
    let dc = f32::from_bits(spectrum[0].0);
    assert!((dc - sum).abs() < 1e-4, "{dc} vs {sum}");
}
