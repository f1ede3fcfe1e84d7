//! Streaming behaviour of the per-channel convolution engine.

use convolution::convolution::ConvolutionEngine;

fn bits_of(samples: &[f32]) -> Vec<u32> {
    samples.iter().map(|s| s.to_bits()).collect()
}

fn floats_of(bits: &[u32]) -> Vec<f32> {
    bits.iter().map(|b| f32::from_bits(*b)).collect()
}

fn run_engine(ir: &[f32], input: &[f32], max_block: usize, block: usize) -> Vec<f32> {
    let ir_bits = bits_of(ir);
    let mut engine = ConvolutionEngine::new(&ir_bits, max_block);
    let mut out = vec![0u32; input.len()];
    let mut processed = 0usize;
    while processed < input.len() {
        let take = block.min(input.len() - processed);
        let chunk = bits_of(&input[processed..processed + take]);
        let mut out_chunk = vec![0u32; take];
        engine.process(&chunk, &mut out_chunk);
        out[processed..processed + take].copy_from_slice(&out_chunk);
        processed += take;
    }
    floats_of(&out)
}

fn rms(a: &[f32], b: &[f32]) -> f64 {
    assert_eq!(a.len(), b.len());
    let mut sum = 0f64;
    for (x, y) in a.iter().zip(b.iter()) {
        let d = *x as f64 - *y as f64;
        sum += d * d;
    }
    (sum / a.len() as f64).sqrt()
}

fn direct_convolution(ir: &[f32], input: &[f32]) -> Vec<f32> {
    let mut out = vec![0f64; input.len()];
    for (i, x) in input.iter().enumerate() {
        for (k, h) in ir.iter().enumerate() {
            if i + k < out.len() {
                out[i + k] += *x as f64 * *h as f64;
            }
        }
    }
    out.iter().map(|v| *v as f32).collect()
}

#[test]
fn rms_error() {
    const SIGNAL_LENGTH: usize = 2048;
    const BUFFER_SIZE: usize = 1024;
    // input signal
    let mut input: Vec<f32> = Vec::new();
    let ones = [1.0f32; SIGNAL_LENGTH];
    let tailing_zeros = [0.0f32; SIGNAL_LENGTH];
    input.extend_from_slice(&ones);
    input.extend_from_slice(&tailing_zeros);

    // impulse response
    let ir = [1.0f32; SIGNAL_LENGTH];
    let ir_bits: Vec<u32> = ir.iter().map(|s| s.to_bits()).collect();
    let mut engine = ConvolutionEngine::new(&ir_bits, 1024);

    // output signal
    let mut output: Vec<f32> = Vec::new();
    output.resize(SIGNAL_LENGTH * 2, 0.0);
    for i in 0..output.len() / BUFFER_SIZE {
        let chunk: Vec<u32> = input[i * BUFFER_SIZE..(i + 1) * BUFFER_SIZE]
            .iter()
            .map(|s| s.to_bits())
            .collect();
        let mut out_chunk = vec![0u32; BUFFER_SIZE];
        engine.process(&chunk, &mut out_chunk);
        for (o, b) in output[i * BUFFER_SIZE..(i + 1) * BUFFER_SIZE]
            .iter_mut()
            .zip(out_chunk.iter())
        {
            *o = f32::from_bits(*b);
        }
    }

    // expected output
    let mut expected_output: Vec<f32> = Vec::new();
    expected_output.resize(SIGNAL_LENGTH * 2 - 1, 0.0);
    for i in 0..SIGNAL_LENGTH {
        expected_output[i] = i as f32 + 1.0;
    }
    for (index, s) in expected_output[SIGNAL_LENGTH..].iter_mut().enumerate() {
        *s = SIGNAL_LENGTH as f32 - 1.0 - index as f32;
    }

    // compute RMS error
    let mut sum = 0.0;
    for (o, e) in output[..output.len() - 1]
        .iter()
        .zip(expected_output.iter())
    {
        sum += (o - e).powi(2);
    }
    println!(
        "RMS error: {}",
        (sum / (SIGNAL_LENGTH as f32 * 2.0 - 1.0)).sqrt()
    );
}

#[test]
fn s1_triangular_pulse() {
    let ir = vec![1.0f32; 2048];
    let mut input = vec![1.0f32; 2048];
    input.extend(vec![0.0f32; 2048]);
    let out = run_engine(&ir, &input, 1024, 1024);

    let mut expected = vec![0.0f32; 4096];
    for i in 0..2048 {
        expected[i] = (i + 1) as f32;
    }
    for i in 2048..4095 {
        expected[i] = (4095 - i) as f32;
    }
    let err = rms(&out[..4095], &expected[..4095]);
    assert!(err < 1e-3, "RMS {err}");
}

#[test]
fn s2_delta_identity() {
    let mut ir = vec![0.0f32; 4096];
    ir[0] = 1.0;
    let input: Vec<f32> = (0..3000).map(|i| ((i * 37 % 101) as f32 - 50.0) / 50.0).collect();
    let out = run_engine(&ir, &input, 512, 512);
    let err = rms(&out, &input);
    assert!(err < 1e-6, "RMS {err}");
}

#[test]
fn s3_shifted_impulse() {
    let ir = vec![0.0f32, 1.0];
    let input = vec![1.0f32, 0.0, 0.0, 0.0, 0.0, 0.0, 0.0, 0.0];
    let out = run_engine(&ir, &input, 4, 4);
    let expected = vec![0.0f32, 1.0, 0.0, 0.0, 0.0, 0.0, 0.0, 0.0];
    let err = rms(&out, &expected);
    assert!(err < 1e-6, "RMS {err}, out {out:?}");
}

#[test]
fn p1_length_preserved() {
    let ir = vec![0.5f32; 300];
    for n in [0usize, 1, 5, 64, 131, 1000] {
        let input: Vec<f32> = (0..n).map(|i| (i as f32).sin()).collect();
        let out = run_engine(&ir, &input, 64, 64);
        assert_eq!(out.len(), n);
    }
}

#[test]
fn p1_longer_output_tail_untouched() {
    // With a longer output plane, exactly input.len() samples are written
    // and the tail keeps its previous contents.
    let ir = vec![1.0f32, 0.5];
    let mut engine = ConvolutionEngine::new(&bits_of(&ir), 8);
    let input = bits_of(&[1.0f32, 2.0, 3.0]);
    let mut out = vec![7u32; 10];
    engine.process(&input, &mut out);
    assert_eq!(out.len(), 10);
    assert_eq!(&out[3..], &[7u32; 7]);
    let first = f32::from_bits(out[0]);
    assert!((first - 1.0).abs() < 1e-6, "{first}");
}

#[test]
fn p2_linearity() {
    let ir: Vec<f32> = (0..500).map(|i| ((i * 13 % 61) as f32 - 30.0) / 60.0).collect();
    let a: Vec<f32> = (0..2000).map(|i| ((i * 7 % 83) as f32 - 41.0) / 41.0).collect();
    let b: Vec<f32> = (0..2000).map(|i| ((i * 29 % 47) as f32 - 23.0) / 23.0).collect();
    let ab: Vec<f32> = a.iter().zip(b.iter()).map(|(x, y)| x + y).collect();

    let out_a = run_engine(&ir, &a, 256, 256);
    let out_b = run_engine(&ir, &b, 256, 256);
    let out_ab = run_engine(&ir, &ab, 256, 256);
    let sum: Vec<f32> = out_a.iter().zip(out_b.iter()).map(|(x, y)| x + y).collect();
    let err = rms(&sum, &out_ab);
    assert!(err < 1e-4, "RMS {err}");
}

#[test]
fn p3_time_invariance_block_shift() {
    // Shifting the input by exactly one block B shifts the output by B.
    let ir: Vec<f32> = (0..700).map(|i| ((i * 11 % 37) as f32 - 18.0) / 36.0).collect();
    let block = 128usize;
    let x: Vec<f32> = (0..1500).map(|i| ((i * 17 % 79) as f32 - 39.0) / 39.0).collect();

    let mut shifted = vec![0.0f32; block];
    shifted.extend_from_slice(&x);

    let out_plain = run_engine(&ir, &x, block, block);
    let out_shifted = run_engine(&ir, &shifted, block, block);
    let err = rms(&out_plain[..x.len() - block], &out_shifted[block..block + x.len() - block]);
    assert!(err < 1e-5, "RMS {err}");
}

#[test]
fn p4_matches_direct_convolution() {
    let ir: Vec<f32> = (0..16).map(|i| ((i * 5 % 11) as f32 - 5.0) / 5.0).collect();
    let input: Vec<f32> = (0..64).map(|i| ((i * 3 % 17) as f32 - 8.0) / 8.0).collect();
    let out = run_engine(&ir, &input, 16, 16);
    let expected = direct_convolution(&ir, &input);
    let err = rms(&out, &expected);
    assert!(err < 1e-3, "RMS {err}");
}

#[test]
fn s6_variable_block_sizes() {
    // Feeding the same samples through calls of varying sizes matches the
    // one-shot run within 1e-6 RMS.
    let ir: Vec<f32> = (0..3000).map(|i| ((i * 23 % 89) as f32 - 44.0) / 88.0).collect();
    let input: Vec<f32> = (0..6000).map(|i| ((i * 31 % 97) as f32 - 48.0) / 48.0).collect();

    let one_shot = run_engine(&ir, &input, 1024, input.len());

    let ir_bits = bits_of(&ir);
    let mut engine = ConvolutionEngine::new(&ir_bits, 1024);
    let sizes = [1usize, 17, 512, 1024];
    let mut out = Vec::new();
    let mut processed = 0usize;
    let mut pick = 0usize;
    while processed < input.len() {
        let take = sizes[pick % sizes.len()].min(input.len() - processed);
        pick += 1;
        let chunk = bits_of(&input[processed..processed + take]);
        let mut out_chunk = vec![0u32; take];
        engine.process(&chunk, &mut out_chunk);
        out.extend(floats_of(&out_chunk));
        processed += take;
    }
    let err = rms(&out, &one_shot);
    assert!(err < 1e-6, "RMS {err}");
}

#[test]
fn p6_zero_input_flushes_to_zero() {
    let ir: Vec<f32> = (0..900).map(|i| ((i * 41 % 53) as f32 - 26.0) / 26.0).collect();
    let block = 64usize; // small block: the input ring has three slots per segment
    let signal: Vec<f32> = (0..640).map(|i| ((i * 19 % 43) as f32 - 21.0) / 21.0).collect();

    let ir_bits = bits_of(&ir);
    let mut engine = ConvolutionEngine::new(&ir_bits, block);
    let mut out = vec![0u32; signal.len()];
    engine.process(&bits_of(&signal), &mut out);

    // Segment size is 3*B = 192 here, so 5 segments cover the IR; flush with
    // a comfortable multiple of the ring length in blocks.
    let flush = vec![0.0f32; 3 * 5 * block * 2];
    let mut flushed = vec![0u32; flush.len()];
    engine.process(&bits_of(&flush), &mut flushed);

    let tail = vec![0.0f32; 4 * block];
    let mut tail_out = vec![0u32; tail.len()];
    engine.process(&bits_of(&tail), &mut tail_out);
    for b in floats_of(&tail_out) {
        assert!(b.abs() <= 1e-12, "residual {b}");
    }
}

#[test]
fn block_aligned_calls_are_bit_identical() {
    // Splitting the stream at block boundaries is exact, not approximate:
    // the same bits come out however many block-aligned calls are made.
    let ir: Vec<f32> = (0..1000).map(|i| ((i * 7 % 13) as f32 - 6.0) / 6.0).collect();
    let input: Vec<f32> = (0..4096).map(|i| ((i * 3 % 31) as f32 - 15.0) / 15.0).collect();
    let ir_bits = bits_of(&ir);

    let mut one = ConvolutionEngine::new(&ir_bits, 256);
    let mut out_one = vec![0u32; input.len()];
    one.process(&bits_of(&input), &mut out_one);

    let mut many = ConvolutionEngine::new(&ir_bits, 256);
    let mut out_many: Vec<u32> = Vec::new();
    for chunk in input.chunks(256) {
        let mut out_chunk = vec![0u32; chunk.len()];
        many.process(&bits_of(chunk), &mut out_chunk);
        out_many.extend(out_chunk);
    }
    assert_eq!(out_one, out_many);
}
