//! A façade over the real-to-complex / complex-to-real FFT pair of `realfft`,
//! fixed to one transform size.
//!
//! The façade owns its forward and inverse plans together with their scratch
//! and staging buffers; all of them are allocated when the façade is built
//! and reused by every transform. A transform writes into the caller's
//! output vector and nothing else, so a caller that keeps its buffers keeps
//! their capacity.
//!
//! Buffers cross this interface as bit patterns: real signals as `Seq<u32>`
//! and one-sided spectra as `Seq<(u32, u32)>` (see [`crate::sample`]). The
//! transforms themselves are named by the uninterpreted functions below;
//! within one process a planned transform of a fixed size is a fixed
//! algorithm, so each is a deterministic function of the input bit patterns.

use std::io::Cursor;

use hound::{Sample, SampleFormat};
use realfft::RealFftPlanner;
use rustfft::num_complex::Complex32;
use vstd::prelude::*;

verus! {

/// The one-sided spectrum (length `n/2 + 1`) that `realfft`'s forward
/// transform of size `n` computes for a real signal of `n` samples.
pub uninterp spec fn rfft_bits(n: int, s: Seq<u32>) -> Seq<(u32, u32)>;

/// The real signal (length `n`) that `realfft`'s inverse transform of size
/// `n` computes for a one-sided spectrum of `n/2 + 1` bins. The result is
/// unnormalized: callers scale by the reciprocal of `n`.
pub uninterp spec fn irfft_bits(n: int, s: Seq<(u32, u32)>) -> Seq<u32>;

/// An owned forward plan with its staging signal, spectrum, and scratch,
/// carried by the closure. The plan is a `realfft` trait object, which the
/// verifier cannot hold in an ordinary field, so the whole bundle is opaque;
/// [`fwd_plan_size`] names the one fact the contracts need.
#[verifier::external_body]
pub struct FwdPlan {
    run: Box<dyn FnMut(&Vec<u32>, &mut Vec<(u32, u32)>) + Send>,
}

/// An owned inverse plan: the staging spectrum is an ordinary field (written
/// bin by bin before each run), while the plan, the staging signal, and the
/// scratch live in the closure. Opaque to the verifier; [`inv_plan_size`]
/// names its size.
#[verifier::external_body]
pub struct InvPlan {
    spectrum: Vec<Complex32>,
    run: Box<dyn FnMut(&mut Vec<Complex32>, &mut Vec<u32>) + Send>,
}

/// The transform size a forward plan was built for.
pub uninterp spec fn fwd_plan_size(p: FwdPlan) -> int;

/// The transform size an inverse plan was built for.
pub uninterp spec fn inv_plan_size(p: InvPlan) -> int;

/// Builds the forward plan of size `n`, allocating its scratch and staging
/// buffers once.
///
/// Relies on `realfft::RealFftPlanner::plan_fft_forward` and
/// `RealToComplex::process_with_scratch`: for a signal of the planned length
/// the transform fills all `n/2 + 1` output bins and returns `Ok` — the only
/// errors it knows are buffer-length mismatches, which the owned buffers
/// rule out. The bit-level conversions are by `hound::Sample::read` (four
/// little-endian bytes to the single-precision value with exactly that bit
/// pattern) and `f32::to_bits`.
#[verifier::external_body]
pub(crate) fn fwd_plan_new(n: usize) -> (r: FwdPlan)
    requires
        n >= 1,
    ensures
        fwd_plan_size(r) == n,
{
    let r2c = RealFftPlanner::new().plan_fft_forward(n);
    let mut signal = r2c.make_input_vec();
    let mut spectrum: Vec<Complex32> = r2c.make_output_vec();
    let mut scratch = r2c.make_scratch_vec();
    FwdPlan { run: Box::new(move |inp, out| {
        for (d, s) in signal.iter_mut().zip(inp.iter()) {
            let mut c = Cursor::new(s.to_le_bytes());
            *d = Sample::read(&mut c, SampleFormat::Float, 4, 32).unwrap();
        }
        let _ = r2c.process_with_scratch(&mut signal, &mut spectrum, &mut scratch);
        out.clear();
        for c in spectrum.iter() {
            out.push((c.re.to_bits(), c.im.to_bits()));
        }
    }) }
}

/// Runs the owned forward plan on `input`, writing the spectrum over
/// `output` (within its retained capacity).
///
/// Relies on the plan built by [`fwd_plan_new`]: the output is the plan's
/// transform of the input bits, a fixed function of them within a process,
/// and running the plan does not change its size.
#[verifier::external_body]
pub(crate) fn fwd_plan_run(p: &mut FwdPlan, input: &Vec<u32>, output: &mut Vec<(u32, u32)>)
    requires
        input@.len() == fwd_plan_size(*old(p)),
        fwd_plan_size(*old(p)) >= 1,
    ensures
        fwd_plan_size(*final(p)) == fwd_plan_size(*old(p)),
        final(output)@ == rfft_bits(fwd_plan_size(*old(p)), input@),
        final(output)@.len() == fwd_plan_size(*old(p)) / 2 + 1,
{
    (p.run)(input, output)
}

/// Builds the inverse plan of size `n`, allocating its scratch and staging
/// buffers once.
///
/// Relies on `realfft::RealFftPlanner::plan_fft_inverse` and
/// `ComplexToReal::process_with_scratch`: for a spectrum of `n/2 + 1` bins
/// the transform fills all `n` output samples; buffer-length errors are
/// ruled out by the owned buffers, and on the remaining error (a non-zero
/// imaginary part at the spectrum's ends) the transform is still performed
/// in full, so the output is a deterministic function of the input bits
/// either way.
#[verifier::external_body]
pub(crate) fn inv_plan_new(n: usize) -> (r: InvPlan)
    requires
        n >= 1,
    ensures
        inv_plan_size(r) == n,
{
    let c2r = RealFftPlanner::new().plan_fft_inverse(n);
    let spectrum: Vec<Complex32> = c2r.make_input_vec();
    let mut signal = c2r.make_output_vec();
    let mut scratch = c2r.make_scratch_vec();
    InvPlan { spectrum, run: Box::new(move |buf, out| {
        let _ = c2r.process_with_scratch(buf, &mut signal, &mut scratch);
        out.clear();
        for v in signal.iter() {
            out.push(v.to_bits());
        }
    }) }
}

/// Runs the owned inverse plan on the spectrum `input`, writing the real
/// signal over `output` (within its retained capacity).
///
/// Relies on the plan built by [`inv_plan_new`], with the conversions of
/// [`fwd_plan_new`]: the staging bins are loaded from the input bit patterns
/// and the output is the plan's inverse transform of them, a fixed function
/// of the input bits within a process; the plan's size does not change.
#[verifier::external_body]
pub(crate) fn inv_plan_run(p: &mut InvPlan, input: &Vec<(u32, u32)>, output: &mut Vec<u32>)
    requires
        input@.len() == inv_plan_size(*old(p)) / 2 + 1,
        inv_plan_size(*old(p)) >= 1,
    ensures
        inv_plan_size(*final(p)) == inv_plan_size(*old(p)),
        final(output)@ == irfft_bits(inv_plan_size(*old(p)), input@),
        final(output)@.len() == inv_plan_size(*old(p)),
{
    for (d, s) in p.spectrum.iter_mut().zip(input.iter()) {
        let mut c0 = Cursor::new(s.0.to_le_bytes());
        let mut c1 = Cursor::new(s.1.to_le_bytes());
        d.re = Sample::read(&mut c0, SampleFormat::Float, 4, 32).unwrap();
        d.im = Sample::read(&mut c1, SampleFormat::Float, 4, 32).unwrap();
    }
    (p.run)(&mut p.spectrum, output)
}

/// Forward and inverse real FFT plans of one fixed size, with their scratch.
pub struct FFT {
    fft_size: usize,
    fwd: FwdPlan,
    inv: InvPlan,
}

impl FFT {
    /// The transform size this façade was built for.
    pub closed spec fn size(&self) -> int {
        self.fft_size as int
    }

    /// Both owned plans were built for this façade's size.
    pub closed spec fn wf(&self) -> bool {
        &&& self.fft_size >= 1
        &&& fwd_plan_size(self.fwd) == self.fft_size
        &&& inv_plan_size(self.inv) == self.fft_size
    }

    /// Plans both transforms and allocates their scratch and staging
    /// buffers; the transforms below only reuse them.
    pub fn new(fft_size: usize) -> (r: FFT)
        requires
            fft_size >= 1,
        ensures
            r.wf(),
            r.size() == fft_size,
    {
        FFT {
            fft_size,
            fwd: fwd_plan_new(fft_size),
            inv: inv_plan_new(fft_size),
        }
    }

    /// Writes the one-sided spectrum of `input` over `output`.
    pub fn forward_transform(&mut self, input: &Vec<u32>, output: &mut Vec<(u32, u32)>)
        requires
            old(self).wf(),
            input@.len() == old(self).size(),
        ensures
            final(self).wf(),
            final(self).size() == old(self).size(),
            final(output)@ == rfft_bits(old(self).size(), input@),
            final(output)@.len() == old(self).size() / 2 + 1,
    {
        fwd_plan_run(&mut self.fwd, input, output);
    }

    /// Writes the unnormalized inverse transform of the spectrum `input`
    /// over `output`.
    pub fn inverse_transform(&mut self, input: &Vec<(u32, u32)>, output: &mut Vec<u32>)
        requires
            old(self).wf(),
            input@.len() == old(self).size() / 2 + 1,
        ensures
            final(self).wf(),
            final(self).size() == old(self).size(),
            final(output)@ == irfft_bits(old(self).size(), input@),
            final(output)@.len() == old(self).size(),
    {
        inv_plan_run(&mut self.inv, input, output);
    }
}

} // verus!
