//! Audio samples and spectrum bins, carried as IEEE-754 single-precision
//! bit patterns.
//!
//! A real sample is a `u32` holding the bit pattern of one single-precision
//! value; a spectrum bin is a pair `(u32, u32)` holding the bit patterns of
//! the real and imaginary parts of one complex value. The bit pattern of
//! positive zero is `0u32`, so zeroed buffers are written with plain `0`
//! literals. The scalar arithmetic on these values is named by the
//! uninterpreted spec functions below and performed by the trusted
//! wrappers; the complex operations are defined over the scalar names,
//! exactly as `num_complex` computes them. Everything that chooses which
//! values to combine is verified against those names. The wrappers work in
//! fixed-size byte buffers and never touch the heap.

use std::io::Cursor;

use hound::{Sample, SampleFormat};
use rustfft::num_complex::Complex32;
use vstd::prelude::*;

verus! {

/// The single-precision sum of the samples with bit patterns `a` and `b`.
pub uninterp spec fn add_bits(a: u32, b: u32) -> u32;

/// The single-precision difference of the samples `a` and `b`.
pub uninterp spec fn sub_bits(a: u32, b: u32) -> u32;

/// The single-precision product of the samples with bit patterns `a` and `b`.
pub uninterp spec fn mul_bits(a: u32, b: u32) -> u32;

/// The single-precision reciprocal of the integer `n`.
pub uninterp spec fn recip_bits(n: int) -> u32;

/// The complex sum of the bins `a` and `b`: componentwise addition.
pub open spec fn cadd_bits(a: (u32, u32), b: (u32, u32)) -> (u32, u32) {
    (add_bits(a.0, b.0), add_bits(a.1, b.1))
}

/// The complex product of the bins `a` and `b`, computed the way
/// `num_complex` does: `re = a.re*b.re - a.im*b.im`,
/// `im = a.re*b.im + a.im*b.re`.
pub open spec fn cmul_bits(a: (u32, u32), b: (u32, u32)) -> (u32, u32) {
    (
        sub_bits(mul_bits(a.0, b.0), mul_bits(a.1, b.1)),
        add_bits(mul_bits(a.0, b.1), mul_bits(a.1, b.0)),
    )
}

/// Relies on single-precision `+` from core, which is a deterministic
/// function of the operand bits, and on `hound::Sample::read`, which turns
/// four little-endian bytes into the single-precision value with exactly
/// that bit pattern (`f32::from_le_bytes`).
#[verifier::external_body]
pub(crate) fn sample_add(a: u32, b: u32) -> (r: u32)
    ensures
        r == add_bits(a, b),
{
    let mut ca = Cursor::new(a.to_le_bytes());
    let mut cb = Cursor::new(b.to_le_bytes());
    let c = Complex32 {
        re: Sample::read(&mut ca, SampleFormat::Float, 4, 32).unwrap(),
        im: Sample::read(&mut cb, SampleFormat::Float, 4, 32).unwrap(),
    };
    (c.re + c.im).to_bits()
}

/// Relies on single-precision `*` from core, a deterministic function of the
/// operand bits, with the bit-level conversions as in `sample_add`.
#[verifier::external_body]
pub(crate) fn sample_mul(a: u32, b: u32) -> (r: u32)
    ensures
        r == mul_bits(a, b),
{
    let mut ca = Cursor::new(a.to_le_bytes());
    let mut cb = Cursor::new(b.to_le_bytes());
    let c = Complex32 {
        re: Sample::read(&mut ca, SampleFormat::Float, 4, 32).unwrap(),
        im: Sample::read(&mut cb, SampleFormat::Float, 4, 32).unwrap(),
    };
    (c.re * c.im).to_bits()
}

/// Relies on `+` for `num_complex::Complex32`: its source adds the real and
/// imaginary parts componentwise with single-precision `+`, so the result is
/// `cadd_bits` of the operand bins. Conversions as in `sample_add`.
#[verifier::external_body]
pub(crate) fn sample_cadd(a: (u32, u32), b: (u32, u32)) -> (r: (u32, u32))
    ensures
        r.0 == add_bits(a.0, b.0),
        r.1 == add_bits(a.1, b.1),
{
    let mut cur = Cursor::new(a.0.to_le_bytes());
    let re = Sample::read(&mut cur, SampleFormat::Float, 4, 32).unwrap();
    cur = Cursor::new(a.1.to_le_bytes());
    let im = Sample::read(&mut cur, SampleFormat::Float, 4, 32).unwrap();
    let x = Complex32 { re, im };
    cur = Cursor::new(b.0.to_le_bytes());
    let re = Sample::read(&mut cur, SampleFormat::Float, 4, 32).unwrap();
    cur = Cursor::new(b.1.to_le_bytes());
    let im = Sample::read(&mut cur, SampleFormat::Float, 4, 32).unwrap();
    let s = x + Complex32 { re, im };
    (s.re.to_bits(), s.im.to_bits())
}

/// Relies on `*` for `num_complex::Complex32`: its source computes
/// `re = a.re*b.re - a.im*b.im` and `im = a.re*b.im + a.im*b.re` with
/// single-precision arithmetic, in exactly that operand order, so the result
/// is `cmul_bits` of the operand bins. Conversions as in `sample_add`.
#[verifier::external_body]
pub(crate) fn sample_cmul(a: (u32, u32), b: (u32, u32)) -> (r: (u32, u32))
    ensures
        r.0 == sub_bits(mul_bits(a.0, b.0), mul_bits(a.1, b.1)),
        r.1 == add_bits(mul_bits(a.0, b.1), mul_bits(a.1, b.0)),
{
    let mut cur = Cursor::new(a.0.to_le_bytes());
    let re = Sample::read(&mut cur, SampleFormat::Float, 4, 32).unwrap();
    cur = Cursor::new(a.1.to_le_bytes());
    let im = Sample::read(&mut cur, SampleFormat::Float, 4, 32).unwrap();
    let x = Complex32 { re, im };
    cur = Cursor::new(b.0.to_le_bytes());
    let re = Sample::read(&mut cur, SampleFormat::Float, 4, 32).unwrap();
    cur = Cursor::new(b.1.to_le_bytes());
    let im = Sample::read(&mut cur, SampleFormat::Float, 4, 32).unwrap();
    let p = x * Complex32 { re, im };
    (p.re.to_bits(), p.im.to_bits())
}

/// Relies on single-precision `/` from core together with `num_traits`:
/// `One::one` is 1.0 and `cast` converts the integer `n` to the nearest
/// single-precision value; both are deterministic functions of `n`.
#[verifier::external_body]
pub(crate) fn sample_recip(n: usize) -> (r: u32)
    ensures
        r == recip_bits(n as int),
{
    let c = Complex32::new(
        realfft::num_traits::One::one(),
        realfft::num_traits::cast(n).unwrap(),
    );
    (c.re / c.im).to_bits()
}

} // verus!
