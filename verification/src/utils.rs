//! Small helpers shared by the binding: the native maximum sample value,
//! the precondition checks that size- and colorspace-taking operations apply
//! before a native call is issued, and the checked buffer arithmetic of the
//! pixel export.

use crate::types::ColorspaceType;
use vstd::prelude::*;

verus! {

/// The quantum depth a native library build was configured with: the number
/// of bits the native library stores per color sample.
#[derive(Debug, Clone, Copy, PartialEq, Eq, Structural)]
pub enum QuantumDepth {
    /// Eight bits per sample.
    Eight,
    /// Sixteen bits per sample.
    Sixteen,
    /// Thirty-two bits per sample.
    ThirtyTwo,
}

impl QuantumDepth {
    /// The largest color sample value of a native build with this depth: all
    /// bits of the sample set.
    pub open spec fn spec_max_rgb(self) -> u64 {
        match self {
            QuantumDepth::Eight => 255,
            QuantumDepth::Sixteen => 65535,
            QuantumDepth::ThirtyTwo => 4294967295,
        }
    }
}

/// The native library's maximum color sample value (its `MaxRGB` constant)
/// for a build of the given quantum depth.
pub fn max_rgb(depth: QuantumDepth) -> (r: u64)
    ensures
        r == depth.spec_max_rgb(),
{
    match depth {
        QuantumDepth::Eight => 255,
        QuantumDepth::Sixteen => 65535,
        QuantumDepth::ThirtyTwo => 4294967295,
    }
}

/// Dimension check applied before any native call that takes a width and a
/// height: a zero width or height is rejected here, never handed to the
/// native library, whose behavior on empty sizes is not defined.
pub fn validate_dimensions(width: u64, height: u64) -> (ok: bool)
    ensures
        ok == (width != 0 && height != 0),
{
    width != 0 && height != 0
}

/// Precondition check of the operations that take a target colorspace
/// (quantization and colorspace transforms): the undefined colorspace is
/// rejected here, never handed to the native library.
pub fn validate_colorspace(colorspace: ColorspaceType) -> (ok: bool)
    ensures
        ok == (colorspace != ColorspaceType::UndefinedColorspace),
{
    colorspace != ColorspaceType::UndefinedColorspace
}

/// The exact length of the buffer a pixel export fills: one sample per map
/// entry for each of `columns * rows` pixels. Returns `None` exactly when
/// the product does not fit the counter, so no undersized buffer is ever
/// handed to the native library.
pub fn export_buffer_len(columns: u64, rows: u64, samples_per_pixel: u64) -> (r: Option<u64>)
    ensures
        r matches Some(n) ==> n == columns * rows * samples_per_pixel,
        (r is Some) == (columns * rows * samples_per_pixel <= u64::MAX),
{
    if samples_per_pixel == 0 {
        return Option::Some(0);
    }
    match columns.checked_mul(rows) {
        Option::Some(pixels) => pixels.checked_mul(samples_per_pixel),
        Option::None => {
            proof {
                assert(columns * rows * samples_per_pixel >= columns * rows) by (nonlinear_arith)
                    requires
                        samples_per_pixel >= 1,
                        columns >= 0,
                        rows >= 0,
                ;
            }
            Option::None
        },
    }
}

} // verus!
