//! Uniform partitioned frequency-domain overlap-save convolution.
//!
//! [`ConvolutionEngine`] streams one mono channel against one mono impulse
//! response; [`Convolution`] dispatches up to two channels to their engines.
//! Samples are IEEE-754 single-precision bit patterns (see [`crate::sample`]),
//! and every engine is an exact implementation of the ghost model
//! [`EngineView`]: `process` returns precisely the samples that
//! [`engine_process`] assigns to its inputs.

use vstd::prelude::*;

use crate::fft::{irfft_bits, rfft_bits, FFT};
use crate::sample::{add_bits, cadd_bits, cmul_bits, mul_bits, recip_bits};
use crate::sample::{sample_add, sample_cadd, sample_cmul, sample_mul, sample_recip};

verus! {

/// A spectrum of `n` bins, all zero.
pub open spec fn zero_bins(n: nat) -> Seq<(u32, u32)> {
    Seq::new(n, |i: int| (0u32, 0u32))
}

/// A real signal of `n` samples, all zero.
pub open spec fn zero_samples(n: nat) -> Seq<u32> {
    Seq::new(n, |i: int| 0u32)
}

/// Pointwise multiply-accumulate of two spectra into an accumulator:
/// bin `i` of the result is `acc[i] + a[i] * b[i]` in complex
/// single-precision arithmetic.
pub open spec fn spectrum_mac(
    acc: Seq<(u32, u32)>,
    a: Seq<(u32, u32)>,
    b: Seq<(u32, u32)>,
) -> Seq<(u32, u32)> {
    acc.map(|i: int, v: (u32, u32)| cadd_bits(v, cmul_bits(a[i], b[i])))
}

/// Every sample of `s` multiplied by the sample `k`.
pub open spec fn scale_samples(s: Seq<u32>, k: u32) -> Seq<u32> {
    s.map(|i: int, x: u32| mul_bits(x, k))
}

/// `s` with the samples at `off .. off + chunk.len()` replaced by `chunk`.
pub open spec fn overwrite(s: Seq<u32>, off: int, chunk: Seq<u32>) -> Seq<u32> {
    Seq::new(s.len(), |i: int| if off <= i < off + chunk.len() { chunk[i - off] } else { s[i] })
}

/// The slot of the input-segment ring holding the spectrum captured
/// `off / stride` blocks before the one at slot `cur`.
pub open spec fn ring_index(cur: int, off: int, nin: int) -> int {
    (cur + off) % nin
}

/// The ghost state of one convolution engine.
#[verifier::ext_equal]
pub ghost struct EngineView {
    /// Input block size `B`.
    pub block: int,
    /// FFT size `F`.
    pub fft_size: int,
    /// Number of impulse-response segments.
    pub nseg: int,
    /// Number of slots of the input-segment ring.
    pub nin: int,
    /// The impulse segment table: spectra of the zero-padded IR windows.
    pub imp: Seq<Seq<(u32, u32)>>,
    /// The input-segment ring.
    pub inp: Seq<Seq<(u32, u32)>>,
    /// The real input buffer (length `F`; filled within the current block).
    pub buf_in: Seq<u32>,
    /// The spectrum handed to the inverse transform.
    pub c_out: Seq<(u32, u32)>,
    /// The normalized inverse transform of `c_out`.
    pub r_out: Seq<u32>,
    /// The deferred accumulator: tail partitions of the current block.
    pub temp: Seq<(u32, u32)>,
    /// The overlap carried past the last block boundary.
    pub overlap: Seq<u32>,
    /// Fill position within the current block, in `[0, B)`.
    pub pos: int,
    /// Ring slot of the current block's spectrum, in `[0, nin)`.
    pub cur: int,
}

impl EngineView {
    /// Ring stride between the spectra of consecutive blocks.
    pub open spec fn stride(self) -> int {
        if self.block > 128 {
            1
        } else {
            3
        }
    }

    /// Number of bins of a one-sided spectrum.
    pub open spec fn bins(self) -> int {
        self.fft_size / 2 + 1
    }

    /// Shape of a well-formed engine: the segment geometry of the design and
    /// every buffer at its fixed length.
    pub open spec fn wf(self) -> bool {
        &&& 1 <= self.block
        &&& self.fft_size == if self.block > 128 { 2 * self.block } else { 4 * self.block }
        &&& self.fft_size <= usize::MAX / 2
        &&& 1 <= self.nseg
        &&& self.nin == self.stride() * self.nseg
        &&& self.nin <= usize::MAX / 4
        &&& self.imp.len() == self.nseg
        &&& (forall|k: int| 0 <= k < self.nseg ==> (#[trigger] self.imp[k]).len() == self.bins())
        &&& self.inp.len() == self.nin
        &&& (forall|k: int| 0 <= k < self.nin ==> (#[trigger] self.inp[k]).len() == self.bins())
        &&& self.buf_in.len() == self.fft_size
        &&& self.c_out.len() == self.bins()
        &&& self.temp.len() == self.bins()
        &&& self.r_out.len() == self.fft_size
        &&& self.overlap.len() == self.fft_size
        &&& 0 <= self.pos < self.block
        &&& 0 <= self.cur < self.nin
    }
}

/// The deferred accumulator after folding in the partitions `1 .. i`:
/// partition `k` pairs IR segment `k` with the input spectrum captured `k`
/// blocks ago, which sits `k * stride` slots after `cur` on the ring.
pub open spec fn deferred_acc_upto(v: EngineView, i: int) -> Seq<(u32, u32)>
    decreases i,
{
    if i <= 1 {
        zero_bins(v.bins() as nat)
    } else {
        spectrum_mac(
            deferred_acc_upto(v, i - 1),
            v.inp[ring_index(v.cur, (i - 1) * v.stride(), v.nin)],
            v.imp[i - 1],
        )
    }
}

/// One sub-block of the engine: consume `chunk` (which must fit in the
/// current block), produce `chunk.len()` output samples, and advance the
/// state; at a block boundary, re-zero the input buffer, refresh the
/// overlap from the tail of `r_out`, and step the ring.
pub open spec fn engine_step(v: EngineView, chunk: Seq<u32>) -> (EngineView, Seq<u32>) {
    let buf_in = overwrite(v.buf_in, v.pos, chunk);
    let v1 = EngineView {
        buf_in,
        inp: v.inp.update(v.cur, rfft_bits(v.fft_size, buf_in)),
        ..v
    };
    let temp = if v.pos == 0 {
        deferred_acc_upto(v1, v.nseg)
    } else {
        v.temp
    };
    let c_out = spectrum_mac(temp, v1.inp[v.cur], v.imp[0]);
    let r_out = scale_samples(irfft_bits(v.fft_size, c_out), recip_bits(v.fft_size));
    let out = Seq::new(chunk.len(), |j: int| add_bits(r_out[v.pos + j], v.overlap[v.pos + j]));
    let v2 = EngineView { temp, c_out, r_out, pos: v.pos + chunk.len(), ..v1 };
    if v2.pos == v.block {
        let v3 = EngineView {
            buf_in: zero_samples(v.fft_size as nat),
            overlap: r_out.subrange(v.block, v.fft_size)
                + v.overlap.subrange(v.fft_size - v.block, v.fft_size),
            pos: 0,
            cur: if v.cur > 0 { v.cur - 1 } else { v.nin - 1 },
            ..v2
        };
        (v3, out)
    } else {
        (v2, out)
    }
}

pub open spec fn spec_min(a: int, b: int) -> int {
    if a < b {
        a
    } else {
        b
    }
}

/// The engine as a function: the final state and the output samples for a
/// whole input, consumed sub-block by sub-block.
pub open spec fn engine_process(v: EngineView, input: Seq<u32>) -> (EngineView, Seq<u32>)
    decreases input.len(),
{
    if input.len() == 0 {
        (v, Seq::empty())
    } else {
        let room = if v.pos < v.block { v.block - v.pos } else { input.len() as int };
        let take = spec_min(input.len() as int, room);
        let first = engine_step(v, input.take(take));
        let rest = engine_process(first.0, input.skip(take));
        (rest.0, first.1 + rest.1)
    }
}

/// Length preservation: for any input, the engine produces exactly as many
/// samples as it consumes, whatever the impulse response and whatever the
/// transforms return.
pub proof fn lemma_engine_process_length(v: EngineView, input: Seq<u32>)
    requires
        0 <= v.pos < v.block,
    ensures
        engine_process(v, input).1.len() == input.len(),
    decreases input.len(),
{
    if input.len() > 0 {
        let take = spec_min(input.len() as int, v.block - v.pos);
        let first = engine_step(v, input.take(take));
        assert(first.1.len() == take);
        assert(0 <= first.0.pos < first.0.block);
        lemma_engine_process_length(first.0, input.skip(take));
    }
}

/// Block-aligned call splitting: at a block boundary, feeding a whole
/// number of blocks and then the rest in a second call is sample-identical
/// to one call on the concatenation — the engine's state and output depend
/// on the samples consumed, not on how the host groups them into calls.
pub proof fn lemma_engine_process_block_split(v: EngineView, a: Seq<u32>, b: Seq<u32>)
    requires
        1 <= v.block,
        v.pos == 0,
        a.len() as int % v.block == 0,
    ensures
        engine_process(v, a + b).0 == engine_process(engine_process(v, a).0, b).0,
        engine_process(v, a + b).1 == engine_process(v, a).1
            + engine_process(engine_process(v, a).0, b).1,
    decreases a.len(),
{
    let block = v.block;
    if a.len() == 0 {
        assert(a + b =~= b);
        assert(engine_process(v, a).1 + engine_process(v, b).1 =~= engine_process(v, b).1);
    } else {
        if a.len() < block {
            vstd::arithmetic::div_mod::lemma_small_mod(a.len(), block as nat);
        }
        assert(a.len() >= block);
        let chunk = a.take(block);
        assert((a + b).take(block) =~= chunk);
        assert((a + b).skip(block) =~= a.skip(block) + b);
        let first = engine_step(v, chunk);
        assert(first.0.pos == 0 && first.0.block == block);
        vstd::arithmetic::div_mod::lemma_mod_multiples_vanish(1, a.len() - block, block);
        lemma_engine_process_block_split(first.0, a.skip(block), b);
        let tail = engine_process(first.0, a.skip(block));
        assert(first.1 + (tail.1 + engine_process(tail.0, b).1)
            =~= (first.1 + tail.1) + engine_process(tail.0, b).1);
    }
}

/// Window `k` of the impulse response: samples `k*seg .. (k+1)*seg`,
/// zero-padded at both ends of the window up to the FFT size.
pub open spec fn ir_window(samples: Seq<u32>, seg: int, fft: int, k: int) -> Seq<u32> {
    Seq::new(
        fft as nat,
        |i: int| if i < seg && k * seg + i < samples.len() {
            samples[k * seg + i]
        } else {
            0u32
        },
    )
}

/// The state of a freshly built engine for the impulse response `samples`
/// and the host's maximum block size: the derived segment geometry, the
/// impulse segment table, and zeroes everywhere else.
pub open spec fn fresh_engine_view(samples: Seq<u32>, max_block: int) -> EngineView {
    let block = crate::low_pow2(max_block);
    let fft_size = if block > 128 {
        2 * block
    } else {
        4 * block
    };
    let seg = fft_size - block;
    let nseg = (samples.len() + seg - 1) / seg;
    let stride: int = if block > 128 {
        1
    } else {
        3
    };
    let nin = stride * nseg;
    let bins = fft_size / 2 + 1;
    EngineView {
        block,
        fft_size,
        nseg,
        nin,
        imp: Seq::new(
            nseg as nat,
            |k: int| rfft_bits(fft_size, ir_window(samples, seg, fft_size, k)),
        ),
        inp: Seq::new(nin as nat, |k: int| zero_bins(bins as nat)),
        buf_in: zero_samples(fft_size as nat),
        c_out: zero_bins(bins as nat),
        r_out: zero_samples(fft_size as nat),
        temp: zero_bins(bins as nat),
        overlap: zero_samples(fft_size as nat),
        pos: 0,
        cur: 0,
    }
}

/// One streaming convolver for a mono channel: a fixed impulse-response
/// segment table and the mutable overlap-save state.
pub struct ConvolutionEngine {
    input_block_size: usize,
    fft_size: usize,
    num_segments: usize,
    num_input_segments: usize,
    buffers_impulse_segments: Vec<Vec<(u32, u32)>>,
    buffers_input_segments: Vec<Vec<(u32, u32)>>,
    buffer_input: Vec<u32>,
    buffer_c_output: Vec<(u32, u32)>,
    buffer_r_output: Vec<u32>,
    buffer_temp_output: Vec<(u32, u32)>,
    buffer_overlap: Vec<u32>,
    input_position: usize,
    current_segment: usize,
    fft: FFT,
}

impl View for ConvolutionEngine {
    type V = EngineView;

    closed spec fn view(&self) -> EngineView {
        EngineView {
            block: self.input_block_size as int,
            fft_size: self.fft_size as int,
            nseg: self.num_segments as int,
            nin: self.num_input_segments as int,
            imp: self.buffers_impulse_segments@.map_values(|v: Vec<(u32, u32)>| v@),
            inp: self.buffers_input_segments@.map_values(|v: Vec<(u32, u32)>| v@),
            buf_in: self.buffer_input@,
            c_out: self.buffer_c_output@,
            r_out: self.buffer_r_output@,
            temp: self.buffer_temp_output@,
            overlap: self.buffer_overlap@,
            pos: self.input_position as int,
            cur: self.current_segment as int,
        }
    }
}

impl ConvolutionEngine {
    /// A valid engine: its ghost state is well formed and its FFT façade
    /// matches the engine's FFT size.
    pub closed spec fn wf(&self) -> bool {
        &&& self@.wf()
        &&& self.fft.wf()
        &&& self.fft.size() == self@.fft_size
    }
}

/// A freshly zeroed signal of `n` samples.
pub(crate) fn zero_samples_vec(n: usize) -> (r: Vec<u32>)
    ensures
        r@ =~= zero_samples(n as nat),
{
    let mut r: Vec<u32> = Vec::new();
    let mut j: usize = 0;
    while j < n
        invariant
            j <= n,
            r@.len() == j,
            forall|i: int| 0 <= i < j ==> r@[i] == 0u32,
        decreases n - j,
    {
        r.push(0);
        j = j + 1;
    }
    r
}

/// Writes `dst[dst_off + j] = src[src_off + j]` for `j < n`, leaving the
/// rest of `dst` unchanged.
pub(crate) fn copy_range(dst: &mut Vec<u32>, dst_off: usize, src: &Vec<u32>, src_off: usize, n: usize)
    requires
        dst_off + n <= old(dst)@.len(),
        src_off + n <= src@.len(),
    ensures
        final(dst)@ =~= overwrite(old(dst)@, dst_off as int, src@.subrange(src_off as int, src_off + n)),
{
    let total = dst.len();
    let src_total = src.len();
    let mut j: usize = 0;
    while j < n
        invariant
            j <= n,
            total == dst@.len(),
            src_total == src@.len(),
            dst_off + n <= total,
            src_off + n <= src_total,
            dst@.len() == old(dst)@.len(),
            forall|i: int| dst_off <= i < dst_off + j ==> dst@[i] == src@[i - dst_off + src_off],
            forall|i: int| 0 <= i < dst@.len() && !(dst_off <= i < dst_off + j) ==> dst@[i] == old(dst)@[i],
        decreases n - j,
    {
        let x = src[src_off + j];
        dst.set(dst_off + j, x);
        j = j + 1;
    }
}

/// Zeroes every sample of `v`.
pub(crate) fn zero_fill(v: &mut Vec<u32>)
    ensures
        final(v)@ =~= zero_samples(old(v)@.len()),
{
    let n = v.len();
    let mut j: usize = 0;
    while j < n
        invariant
            j <= n,
            v@.len() == n,
            forall|i: int| 0 <= i < j ==> v@[i] == 0u32,
        decreases n - j,
    {
        v.set(j, 0);
        j = j + 1;
    }
}

/// A freshly zeroed spectrum of `n` bins.
pub(crate) fn zero_bins_vec(n: usize) -> (r: Vec<(u32, u32)>)
    ensures
        r@ =~= zero_bins(n as nat),
{
    let mut r: Vec<(u32, u32)> = Vec::new();
    let mut j: usize = 0;
    while j < n
        invariant
            j <= n,
            r@.len() == j,
            forall|i: int| 0 <= i < j ==> r@[i] == (0u32, 0u32),
        decreases n - j,
    {
        r.push((0, 0));
        j = j + 1;
    }
    r
}

/// Zeroes every bin of `v` in place.
pub(crate) fn zero_bins_fill(v: &mut Vec<(u32, u32)>)
    ensures
        final(v)@ =~= zero_bins(old(v)@.len()),
{
    let n = v.len();
    let mut j: usize = 0;
    while j < n
        invariant
            j <= n,
            v@.len() == n,
            forall|i: int| 0 <= i < j ==> v@[i] == (0u32, 0u32),
        decreases n - j,
    {
        v.set(j, (0, 0));
        j = j + 1;
    }
}

/// Overwrites `dst` with the bins of `src`, in place.
pub(crate) fn copy_bins_into(dst: &mut Vec<(u32, u32)>, src: &Vec<(u32, u32)>)
    requires
        old(dst)@.len() == src@.len(),
    ensures
        final(dst)@ =~= src@,
{
    let n = dst.len();
    let mut j: usize = 0;
    while j < n
        invariant
            j <= n,
            dst@.len() == n,
            n == src@.len(),
            forall|i: int| 0 <= i < j ==> dst@[i] == src@[i],
        decreases n - j,
    {
        let x = src[j];
        dst.set(j, x);
        j = j + 1;
    }
}

/// Multiplies every sample of `v` by the sample `k` in place.
pub(crate) fn scale_in_place(v: &mut Vec<u32>, k: u32)
    ensures
        final(v)@ =~= scale_samples(old(v)@, k),
{
    let n = v.len();
    let mut j: usize = 0;
    while j < n
        invariant
            j <= n,
            v@.len() == n,
            forall|i: int| j <= i < n ==> v@[i] == old(v)@[i],
            forall|i: int| 0 <= i < j ==> v@[i] == mul_bits(old(v)@[i], k),
        decreases n - j,
    {
        let x = v[j];
        v.set(j, sample_mul(x, k));
        j = j + 1;
    }
}

/// Writes `output[out_off + j] = a[src_off + j] + b[src_off + j]` for
/// `j < n`, leaving the rest of `output` unchanged.
pub(crate) fn add_ranges_into(
    output: &mut Vec<u32>,
    out_off: usize,
    a: &Vec<u32>,
    b: &Vec<u32>,
    src_off: usize,
    n: usize,
)
    requires
        out_off + n <= old(output)@.len(),
        src_off + n <= a@.len(),
        src_off + n <= b@.len(),
    ensures
        final(output)@.len() == old(output)@.len(),
        forall|i: int| out_off <= i < out_off + n ==> final(output)@[i]
            == add_bits(a@[i - out_off + src_off], b@[i - out_off + src_off]),
        forall|i: int| 0 <= i < old(output)@.len() && !(out_off <= i < out_off + n)
            ==> final(output)@[i] == old(output)@[i],
{
    let total = output.len();
    let a_total = a.len();
    let b_total = b.len();
    let mut j: usize = 0;
    while j < n
        invariant
            j <= n,
            total == output@.len(),
            a_total == a@.len(),
            b_total == b@.len(),
            out_off + n <= total,
            src_off + n <= a_total,
            src_off + n <= b_total,
            output@.len() == old(output)@.len(),
            forall|i: int| out_off <= i < out_off + j ==> output@[i]
                == add_bits(a@[i - out_off + src_off], b@[i - out_off + src_off]),
            forall|i: int| 0 <= i < output@.len() && !(out_off <= i < out_off + j) ==> output@[i] == old(output)@[i],
        decreases n - j,
    {
        let x = a[src_off + j];
        let y = b[src_off + j];
        output.set(out_off + j, sample_add(x, y));
        j = j + 1;
    }
}

impl ConvolutionEngine {
    /// Builds an engine for one channel: `samples` holds the bit patterns of
    /// the impulse response's single-precision samples, `max_block_size` is
    /// the largest block the host will hand to `process`.
    ///
    /// All allocation happens here, off the audio thread. The initial state
    /// is pinned completely: the impulse segment table holds the forward
    /// transforms of the zero-padded impulse-response windows, every other
    /// buffer is zeroed, and the cursors start at zero.
    pub fn new(samples: &Vec<u32>, max_block_size: usize) -> (r: ConvolutionEngine)
        requires
            1 <= samples@.len() <= usize::MAX / 16,
            1 <= max_block_size <= usize::MAX / 16,
        ensures
            r.wf(),
            r@ == fresh_engine_view(samples@, max_block_size as int),
    {
        let input_block_size = crate::next_pow2(max_block_size);
        let fft_size = if input_block_size > 128 {
            2 * input_block_size
        } else {
            4 * input_block_size
        };
        let seg_size = fft_size - input_block_size;
        let len = samples.len();
        let num_segments = (len + seg_size - 1) / seg_size;
        let stride: usize = if input_block_size > 128 { 1 } else { 3 };

        proof {
            vstd::arithmetic::div_mod::lemma_fundamental_div_mod(
                (len + seg_size - 1) as int,
                seg_size as int,
            );
            assert(num_segments >= 1) by (nonlinear_arith)
                requires
                    seg_size >= 1,
                    len >= 1,
                    num_segments == (len + seg_size - 1) as int / seg_size as int,
                    seg_size as int * (num_segments as int) + ((len + seg_size - 1) as int % seg_size as int) == len + seg_size - 1,
                    0 <= ((len + seg_size - 1) as int % (seg_size as int)) < seg_size;
            assert((num_segments - 1) * seg_size <= len - 1 && num_segments <= len) by (nonlinear_arith)
                requires
                    seg_size >= 1,
                    len >= 1,
                    num_segments >= 1,
                    seg_size as int * (num_segments as int) + ((len + seg_size - 1) as int % seg_size as int) == len + seg_size - 1,
                    0 <= ((len + seg_size - 1) as int % (seg_size as int)) < seg_size;
        }
        let num_input_segments = stride * num_segments;
        let bins = fft_size / 2 + 1;
        let mut fft = FFT::new(fft_size);

        let mut impulse_segments: Vec<Vec<(u32, u32)>> = Vec::new();
        let mut k: usize = 0;
        let mut start: usize = 0;
        while k < num_segments
            invariant
                k <= num_segments,
                start == k * seg_size,
                impulse_segments@.len() == k,
                1 <= seg_size,
                seg_size < fft_size <= usize::MAX / 2,
                1 <= len <= usize::MAX / 16,
                len == samples@.len(),
                (num_segments - 1) * seg_size <= len - 1,
                fft.wf(),
                fft.size() == fft_size,
                forall|i: int| 0 <= i < k ==> (#[trigger] impulse_segments@[i])@
                    == rfft_bits(fft_size as int, ir_window(samples@, seg_size as int, fft_size as int, i)),
                forall|i: int| 0 <= i < k ==> (#[trigger] impulse_segments@[i])@.len() == fft_size / 2 + 1,
            decreases num_segments - k,
        {
            proof {
                vstd::arithmetic::mul::lemma_mul_inequality(k as int, num_segments - 1, seg_size as int);
            }
            let take = if seg_size <= len - start {
                seg_size
            } else {
                len - start
            };
            let mut window = zero_samples_vec(fft_size);
            copy_range(&mut window, 0, samples, start, take);
            proof {
                assert(window@ =~= ir_window(samples@, seg_size as int, fft_size as int, k as int));
            }
            let mut spectrum: Vec<(u32, u32)> = Vec::new();
            fft.forward_transform(&window, &mut spectrum);
            impulse_segments.push(spectrum);
            proof {
                vstd::arithmetic::mul::lemma_mul_is_distributive_add_other_way(seg_size as int, k as int, 1);
            }
            start = start + seg_size;
            k = k + 1;
        }

        let mut input_segments: Vec<Vec<(u32, u32)>> = Vec::new();
        let mut k2: usize = 0;
        while k2 < num_input_segments
            invariant
                k2 <= num_input_segments,
                input_segments@.len() == k2,
                forall|i: int| 0 <= i < k2 ==> (#[trigger] input_segments@[i])@
                    == zero_bins((fft_size / 2 + 1) as nat),
                bins == fft_size / 2 + 1,
            decreases num_input_segments - k2,
        {
            input_segments.push(zero_bins_vec(bins));
            k2 = k2 + 1;
        }

        let engine = ConvolutionEngine {
            input_block_size,
            fft_size,
            num_segments,
            num_input_segments,
            buffers_impulse_segments: impulse_segments,
            buffers_input_segments: input_segments,
            buffer_input: zero_samples_vec(fft_size),
            buffer_c_output: zero_bins_vec(bins),
            buffer_r_output: zero_samples_vec(fft_size),
            buffer_temp_output: zero_bins_vec(bins),
            buffer_overlap: zero_samples_vec(fft_size),
            input_position: 0,
            current_segment: 0,
            fft,
        };
        proof {
            let fresh = fresh_engine_view(samples@, max_block_size as int);
            assert(engine@.imp =~= fresh.imp);
            assert(engine@.inp =~= fresh.inp);
            assert(engine@ =~= fresh);
        }
        engine
    }
}

/// Advancing the ring by one more stride: the next slot is the wrapped
/// increment of the previous one.
proof fn lemma_ring_advance(cur: int, i: int, s: int, nin: int)
    requires
        0 <= cur < nin,
        1 <= s < nin,
        1 <= i,
    ensures
        0 <= ring_index(cur, (i - 1) * s, nin) < nin,
        0 <= ring_index(cur, i * s, nin) < nin,
        ring_index(cur, i * s, nin) == ({
            let prev = ring_index(cur, (i - 1) * s, nin);
            if prev + s >= nin {
                prev + s - nin
            } else {
                prev + s
            }
        }),
{
    let x = cur + (i - 1) * s;
    assert(x >= 0) by (nonlinear_arith)
        requires
            cur >= 0,
            s >= 1,
            i >= 1,
            x == cur + (i - 1) * s;
    vstd::arithmetic::div_mod::lemma_mod_bound(x, nin);
    let prev = x % nin;
    assert(cur + i * s == x + s) by (nonlinear_arith)
        requires
            x == cur + (i - 1) * s;
    vstd::arithmetic::div_mod::lemma_add_mod_noop(x, s, nin);
    vstd::arithmetic::div_mod::lemma_small_mod(s as nat, nin as nat);
    vstd::arithmetic::div_mod::lemma_mod_bound(x + s, nin);
    if prev + s < nin {
        vstd::arithmetic::div_mod::lemma_small_mod((prev + s) as nat, nin as nat);
    } else {
        vstd::arithmetic::div_mod::lemma_mod_multiples_vanish(1, prev + s - nin, nin);
        vstd::arithmetic::div_mod::lemma_small_mod((prev + s - nin) as nat, nin as nat);
    }
}

impl ConvolutionEngine {
    /// Streams `input` through the convolver, writing exactly
    /// `input.len()` samples over the front of `output` and leaving the rest
    /// of `output` untouched: the engine consumes the input sub-block by
    /// sub-block, transforms the current block, accumulates it against the
    /// impulse segment table, and adds the overlap carried past the last
    /// block boundary. State and output are exactly those of the ghost model
    /// [`engine_process`]. All work happens in place, in the buffers
    /// allocated at construction; the only writes outside the engine go into
    /// `output`.
    #[verifier::loop_isolation(false)]
    #[verifier::rlimit(100)]
    pub fn process(&mut self, input: &Vec<u32>, output: &mut Vec<u32>)
        requires
            old(self).wf(),
            input@.len() <= old(output)@.len(),
        ensures
            final(self).wf(),
            final(output)@.len() == old(output)@.len(),
            final(output)@.subrange(0, input@.len() as int)
                == engine_process(old(self)@, input@).1,
            forall|i: int| input@.len() <= i < old(output)@.len()
                ==> final(output)@[i] == old(output)@[i],
            final(self)@ == engine_process(old(self)@, input@).0,
    {
        let num_samples = input.len();
        let mut processed: usize = 0;
        proof {
            assert(input@.skip(0) =~= input@);
            assert(output@.subrange(0, 0) =~= Seq::<u32>::empty());
            assert(Seq::<u32>::empty() + engine_process(self@, input@).1
                =~= engine_process(self@, input@).1);
        }
        while processed < num_samples
            invariant
                self.wf(),
                processed <= num_samples,
                output@.len() == old(output)@.len(),
                num_samples <= output@.len(),
                forall|i: int| num_samples <= i < output@.len() ==> output@[i] == old(output)@[i],
                engine_process(old(self)@, input@).0
                    == engine_process(self@, input@.skip(processed as int)).0,
                engine_process(old(self)@, input@).1
                    == output@.subrange(0, processed as int)
                        + engine_process(self@, input@.skip(processed as int)).1,
            decreases num_samples - processed,
        {
            let ghost m = self@;
            let ghost rem = input@.skip(processed as int);
            let ghost out0 = output@;

            let remaining = num_samples - processed;
            let room = self.input_block_size - self.input_position;
            let take = if remaining < room {
                remaining
            } else {
                room
            };
            let ghost chunk = input@.subrange(processed as int, processed + take);

            // Fill the current block of the input buffer.
            copy_range(&mut self.buffer_input, self.input_position, input, processed, take);

            // Transform the block into the ring slot of the current segment.
            self.fft.forward_transform(
                &self.buffer_input,
                &mut self.buffers_input_segments[self.current_segment],
            );

            let ghost v1 = EngineView {
                buf_in: self.buffer_input@,
                inp: m.inp.update(m.cur, rfft_bits(m.fft_size, self.buffer_input@)),
                ..m
            };
            proof {
                assert(self.buffer_input@ =~= overwrite(m.buf_in, m.pos, chunk));
                assert(self@.inp =~= v1.inp);
                assert(self@ =~= v1);
                assert forall|k: int| 0 <= k < v1.nin implies (#[trigger] v1.inp[k]).len()
                    == v1.bins() by {
                    if k != m.cur {
                        assert(v1.inp[k] == m.inp[k]);
                    }
                }
            }

            // At the start of a block, recompute the deferred accumulator:
            // partition i pairs IR segment i with the input captured i blocks
            // ago, one stride further along the ring for each partition.
            if self.input_position == 0 {
                proof {
                    assert(v1.nin == v1.nseg * v1.stride()) by (nonlinear_arith)
                        requires
                            v1.nin == v1.stride() * v1.nseg;
                    vstd::arithmetic::div_mod::lemma_div_multiples_vanish(
                        v1.stride(),
                        v1.nseg,
                    );
                    vstd::arithmetic::div_mod::lemma_small_mod(
                        m.cur as nat,
                        m.nin as nat,
                    );
                }
                let index_step = self.num_input_segments / self.num_segments;
                zero_bins_fill(&mut self.buffer_temp_output);
                let mut index = self.current_segment;
                let mut i: usize = 1;
                while i < self.num_segments
                    invariant
                        1 <= i <= v1.nseg,
                        (EngineView { temp: v1.temp, ..self@ }) == v1,
                        self.fft.wf(),
                        self.fft.size() == v1.fft_size,
                        self@.temp.len() == v1.bins(),
                        self@.temp == deferred_acc_upto(v1, i as int),
                        index_step == v1.stride(),
                        index == ring_index(v1.cur, (i - 1) * v1.stride(), v1.nin),
                        0 <= index < v1.nin,
                    decreases v1.nseg - i,
                {
                    proof {
                        lemma_ring_advance(v1.cur, i as int, v1.stride(), v1.nin);
                    }
                    index = index + index_step;
                    if index >= self.num_input_segments {
                        index = index - self.num_input_segments;
                    }
                    proof {
                        assert(self.buffers_input_segments@[index as int]@
                            == self@.inp[index as int]);
                        assert(self.buffers_impulse_segments@[i as int]@
                            == self@.imp[i as int]);
                        assert(self@.inp[index as int].len() == v1.bins());
                        assert(self@.imp[i as int].len() == v1.bins());
                    }
                    convolve_and_accumulate(
                        &mut self.buffer_temp_output,
                        &self.buffers_input_segments[index],
                        &self.buffers_impulse_segments[i],
                    );
                    i = i + 1;
                }
            }
            let ghost tempv = if m.pos == 0 {
                deferred_acc_upto(v1, m.nseg)
            } else {
                m.temp
            };

            // Partition 0: the freshest input against the first IR segment.
            proof {
                assert(self@.temp =~= tempv);
                assert(self@.c_out == m.c_out && self@.c_out.len() == v1.bins());
                assert(self@.temp.len() == v1.bins());
                assert(self.buffers_input_segments@[self.current_segment as int]@
                    == self@.inp[m.cur]);
                assert(self@.inp[m.cur].len() == v1.bins());
                assert(self.buffers_impulse_segments@[0]@ == self@.imp[0]);
                assert(self@.imp[0].len() == v1.bins());
            }
            copy_bins_into(&mut self.buffer_c_output, &self.buffer_temp_output);
            convolve_and_accumulate(
                &mut self.buffer_c_output,
                &self.buffers_input_segments[self.current_segment],
                &self.buffers_impulse_segments[0],
            );

            // Back to the time domain, normalized by 1/F.
            self.fft.inverse_transform(&self.buffer_c_output, &mut self.buffer_r_output);
            let recip = sample_recip(self.fft_size);
            scale_in_place(&mut self.buffer_r_output, recip);

            // Emit this sub-block: fresh output plus the carried overlap.
            add_ranges_into(
                output,
                processed,
                &self.buffer_r_output,
                &self.buffer_overlap,
                self.input_position,
                take,
            );

            self.input_position = self.input_position + take;

            // Block boundary: re-zero the input buffer, refresh the overlap
            // from the tail of the block's result, and step the ring.
            if self.input_position == self.input_block_size {
                zero_fill(&mut self.buffer_input);
                copy_range(
                    &mut self.buffer_overlap,
                    0,
                    &self.buffer_r_output,
                    self.input_block_size,
                    self.fft_size - self.input_block_size,
                );
                self.input_position = 0;
                self.current_segment = if self.current_segment > 0 {
                    self.current_segment - 1
                } else {
                    self.num_input_segments - 1
                };
            }

            proof {
                let step = engine_step(m, chunk);
                assert(chunk =~= rem.take(take as int));
                assert(self@.temp =~= tempv);
                assert(self@.c_out =~= step.0.c_out);
                assert(self@.r_out =~= step.0.r_out);
                if m.pos + take == m.block {
                    assert(self@.buf_in =~= step.0.buf_in);
                    assert(self@.overlap =~= step.0.overlap);
                }
                assert(self@ =~= step.0);
                assert(output@.subrange(0, processed as int) =~= out0.subrange(0, processed as int));
                assert(output@.subrange(0, processed + take) =~= out0.subrange(0, processed as int) + step.1);
                assert(rem.skip(take as int) =~= input@.skip(processed + take));
                assert(engine_process(m, rem).0 == engine_process(step.0, rem.skip(take as int)).0);
                assert(engine_process(m, rem).1 == step.1 + engine_process(step.0, rem.skip(take as int)).1);
                assert(engine_process(old(self)@, input@).1
                    == output@.subrange(0, processed + take)
                        + engine_process(self@, input@.skip(processed + take)).1);
            }
            processed = processed + take;
        }
        proof {
            assert(input@.skip(num_samples as int) =~= Seq::<u32>::empty());
            assert(output@.subrange(0, num_samples as int)
                + engine_process(self@, input@.skip(num_samples as int)).1
                =~= output@.subrange(0, num_samples as int));
        }
    }
}

/// Pointwise multiply-accumulates `input * impulse` into `acc`.
pub(crate) fn convolve_and_accumulate(
    acc: &mut Vec<(u32, u32)>,
    input: &Vec<(u32, u32)>,
    impulse: &Vec<(u32, u32)>,
)
    requires
        old(acc)@.len() == input@.len(),
        input@.len() == impulse@.len(),
    ensures
        final(acc)@ =~= spectrum_mac(old(acc)@, input@, impulse@),
{
    let n = acc.len();
    let mut j: usize = 0;
    while j < n
        invariant
            j <= n,
            acc@.len() == n,
            n == input@.len(),
            n == impulse@.len(),
            forall|i: int| j <= i < n ==> acc@[i] == old(acc)@[i],
            forall|i: int| 0 <= i < j ==> acc@[i] == cadd_bits(old(acc)@[i], cmul_bits(input@[i], impulse@[i])),
        decreases n - j,
    {
        let x = acc[j];
        let a = input[j];
        let b = impulse[j];
        acc.set(j, sample_cadd(x, sample_cmul(a, b)));
        j = j + 1;
    }
}

/// How many channels a multi-channel `process` call touches: the least of
/// the engine count and the two plane counts.
pub open spec fn active_count(engines: int, ins: int, outs: int) -> int {
    spec_min(engines, spec_min(ins, outs))
}

/// A multi-channel convolver: up to two per-channel engines, each fed one
/// input plane. With no impulse response loaded, `process` leaves the
/// output planes untouched.
pub struct Convolution {
    engines: Option<Vec<ConvolutionEngine>>,
    num_channels: usize,
    latency: usize,
    is_stereo: bool,
}

impl Convolution {
    /// The ghost states of the per-channel engines; empty while no impulse
    /// response is loaded.
    pub closed spec fn engine_views(&self) -> Seq<EngineView> {
        match self.engines {
            Some(es) => es@.map_values(|e: ConvolutionEngine| e@),
            None => Seq::empty(),
        }
    }

    /// Whether an impulse response is loaded.
    pub closed spec fn has_engines(&self) -> bool {
        self.engines is Some
    }

    /// The maximum block size the engines are built for.
    pub closed spec fn max_block(&self) -> int {
        self.latency as int
    }

    /// The number of loaded channels.
    pub closed spec fn channels(&self) -> int {
        self.num_channels as int
    }

    /// Whether two channels are loaded.
    pub closed spec fn stereo(&self) -> bool {
        self.is_stereo
    }

    /// A valid convolver: a usable block size and, when loaded, one
    /// well-formed engine per channel, at most two.
    pub closed spec fn wf(&self) -> bool {
        &&& 1 <= self.latency <= usize::MAX / 16
        &&& match self.engines {
            Some(es) => {
                &&& es@.len() == self.num_channels
                &&& self.num_channels <= 2
                &&& self.is_stereo == (self.num_channels == 2)
                &&& forall|i: int| 0 <= i < es@.len() ==> (#[trigger] es@[i]).wf()
            },
            None => self.num_channels == 0 && !self.is_stereo,
        }
    }

    /// Under well-formedness the channel count is the number of loaded
    /// engines, the stereo flag says whether there are two, and a convolver
    /// with no impulse response loaded has no engines at all — so its
    /// `process` touches no output plane (the active count is zero).
    pub proof fn lemma_channel_shape(self)
        requires
            self.wf(),
        ensures
            self.channels() == self.engine_views().len(),
            self.stereo() == (self.channels() == 2),
            !self.has_engines() ==> self.engine_views() == Seq::<EngineView>::empty(),
    {
    }

    pub fn new(max_block_size: usize) -> (r: Convolution)
        requires
            1 <= max_block_size <= usize::MAX / 16,
        ensures
            r.wf(),
            !r.has_engines(),
            r.channels() == 0,
            r.max_block() == max_block_size,
            !r.stereo(),
            r.engine_views() == Seq::<EngineView>::empty(),
    {
        Convolution { engines: None, num_channels: 0, latency: max_block_size, is_stereo: false }
    }

    /// Builds one engine per channel of `impulse_response` (at most two;
    /// further channels are dropped) against this convolver's block size.
    /// An empty impulse response is rejected: the convolver is unchanged.
    #[verifier::loop_isolation(false)]
    pub fn load_impulse_response(&mut self, impulse_response: &Vec<Vec<u32>>)
        requires
            old(self).wf(),
            forall|i: int| 0 <= i < spec_min(impulse_response@.len() as int, 2)
                ==> 1 <= (#[trigger] impulse_response@[i])@.len() <= usize::MAX / 16,
        ensures
            final(self).wf(),
            final(self).max_block() == old(self).max_block(),
            impulse_response@.len() == 0 ==> ({
                &&& final(self).engine_views() == old(self).engine_views()
                &&& final(self).has_engines() == old(self).has_engines()
                &&& final(self).channels() == old(self).channels()
                &&& final(self).stereo() == old(self).stereo()
            }),
            impulse_response@.len() > 0 ==> ({
                let n = spec_min(impulse_response@.len() as int, 2);
                &&& final(self).has_engines()
                &&& final(self).channels() == n
                &&& final(self).stereo() == (n == 2)
                &&& final(self).engine_views() == Seq::new(
                    n as nat,
                    |i: int| fresh_engine_view(impulse_response@[i]@, old(self).max_block()),
                )
            }),
    {
        let length = impulse_response.len();
        if length == 0 {
            return;
        }
        let length = if length > 2 {
            2
        } else {
            length
        };
        self.num_channels = length;
        self.is_stereo = length == 2;

        let mut engines: Vec<ConvolutionEngine> = Vec::new();
        let mut i: usize = 0;
        while i < length
            invariant
                i <= length,
                engines@.len() == i,
                forall|j: int| 0 <= j < i ==> (#[trigger] engines@[j]).wf(),
                forall|j: int| 0 <= j < i ==> (#[trigger] engines@[j])@
                    == fresh_engine_view(impulse_response@[j]@, self.latency as int),
            decreases length - i,
        {
            engines.push(ConvolutionEngine::new(&impulse_response[i], self.latency));
            i = i + 1;
        }
        self.engines = Some(engines);
        proof {
            assert(self.engine_views() =~= Seq::new(
                spec_min(impulse_response@.len() as int, 2) as nat,
                |i: int| fresh_engine_view(impulse_response@[i]@, old(self).max_block()),
            ));
        }
    }

    /// Installs a freshly built set of engines. The replaced engines are
    /// dropped here, in place: releasing a convolver is plain deallocation,
    /// taken to be safe on the calling thread.
    pub fn swap(&mut self, engines: Vec<ConvolutionEngine>)
        requires
            old(self).wf(),
            engines@.len() <= 2,
            forall|i: int| 0 <= i < engines@.len() ==> (#[trigger] engines@[i]).wf(),
        ensures
            final(self).wf(),
            final(self).max_block() == old(self).max_block(),
            final(self).has_engines(),
            final(self).channels() == engines@.len(),
            final(self).stereo() == (engines@.len() == 2),
            final(self).engine_views() == engines@.map_values(|e: ConvolutionEngine| e@),
    {
        self.num_channels = engines.len();
        self.is_stereo = engines.len() == 2;
        self.engines = Some(engines);
    }

    /// Dispatches the `k`-th input plane to the `k`-th engine, for `k` under
    /// the least of the engine count and the two plane counts; planes past
    /// that are left untouched (the engines never write data they did not
    /// compute).
    #[verifier::loop_isolation(false)]
    pub fn process(&mut self, input: &Vec<Vec<u32>>, output: &mut Vec<Vec<u32>>)
        requires
            old(self).wf(),
            forall|j: int| 0 <= j < active_count(
                old(self).engine_views().len() as int,
                input@.len() as int,
                old(output)@.len() as int,
            ) ==> (#[trigger] input@[j])@.len() == old(output)@[j]@.len(),
        ensures
            final(self).wf(),
            final(self).max_block() == old(self).max_block(),
            final(self).has_engines() == old(self).has_engines(),
            final(self).channels() == old(self).channels(),
            final(self).stereo() == old(self).stereo(),
            final(self).engine_views().len() == old(self).engine_views().len(),
            final(output)@.len() == old(output)@.len(),
            ({
                let n = active_count(
                    old(self).engine_views().len() as int,
                    input@.len() as int,
                    old(output)@.len() as int,
                );
                &&& forall|j: int| 0 <= j < n ==> (#[trigger] final(output)@[j])@
                    == engine_process(old(self).engine_views()[j], input@[j]@).1
                &&& forall|j: int| 0 <= j < n ==> (#[trigger] final(self).engine_views()[j])
                    == engine_process(old(self).engine_views()[j], input@[j]@).0
                &&& forall|j: int| n <= j < old(output)@.len() ==> (#[trigger] final(output)@[j])
                    == old(output)@[j]
                &&& forall|j: int| n <= j < old(self).engine_views().len()
                    ==> (#[trigger] final(self).engine_views()[j]) == old(self).engine_views()[j]
            }),
    {
        let ghost vs0 = self.engine_views();
        let ghost out0 = output@;
        let n0 = if input.len() < output.len() {
            input.len()
        } else {
            output.len()
        };
        match &mut self.engines {
            Some(engines) => {
                let n = if n0 < engines.len() {
                    n0
                } else {
                    engines.len()
                };
                let mut i: usize = 0;
                while i < n
                    invariant
                        i <= n,
                        n == active_count(vs0.len() as int, input@.len() as int, out0.len() as int),
                        engines@.len() == vs0.len(),
                        output@.len() == out0.len(),
                        forall|j: int| 0 <= j < engines@.len() ==> (#[trigger] engines@[j]).wf(),
                        forall|j: int| i <= j < engines@.len() ==> (#[trigger] engines@[j])@ == vs0[j],
                        forall|j: int| 0 <= j < i ==> (#[trigger] engines@[j])@
                            == engine_process(vs0[j], input@[j]@).0,
                        forall|j: int| 0 <= j < i ==> (#[trigger] output@[j])@
                            == engine_process(vs0[j], input@[j]@).1,
                        forall|j: int| i <= j < output@.len() ==> (#[trigger] output@[j]) == out0[j],
                    decreases n - i,
                {
                    engines[i].process(&input[i], &mut output[i]);
                    i = i + 1;
                }
            },
            None => {},
        }
    }
}

} // verus!
