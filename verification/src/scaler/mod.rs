//! Picture scalers: a copy of the picture as it is, or one of the hqx magnifying filters.
pub mod hqx;
pub mod hq2x_rules;
pub mod hq3x_rules;
pub mod hq4x_rules;
pub mod laws;

use crate::util::ColorYuv;
use crate::video::Color;
use hqx::{hqx, hqx_scaled};
use vstd::prelude::*;

verus! {

/// The scaling filters.
#[derive(Clone, Copy, PartialEq, Eq, Debug, Structural)]
pub enum ScalerKind {
    /// The picture as it is.
    Copy,
    /// hq2x: each pixel becomes a block of 2 by 2.
    Hq2x,
    /// hq3x: each pixel becomes a block of 3 by 3.
    Hq3x,
    /// hq4x: each pixel becomes a block of 4 by 4.
    Hq4x,
}

/// A scaling filter and the factor by which it enlarges a picture in each direction.
#[derive(Clone, Copy, Debug)]
pub struct Scaler {
    pub kind: ScalerKind,
    pub scale_factor: usize,
}

/// The filter that leaves the picture as it is.
pub open spec fn spec_none() -> Scaler {
    Scaler { kind: ScalerKind::Copy, scale_factor: 1 }
}

/// The filter that leaves the picture as it is.
pub fn none() -> (r: Scaler)
    ensures
        r == spec_none(),
{
    Scaler { kind: ScalerKind::Copy, scale_factor: 1 }
}

/// The hq2x filter, which doubles each side.
pub open spec fn spec_hq2x() -> Scaler {
    Scaler { kind: ScalerKind::Hq2x, scale_factor: hqx::HQ2X_SCALING_FACTOR }
}

/// The hq3x filter, which triples each side.
pub open spec fn spec_hq3x() -> Scaler {
    Scaler { kind: ScalerKind::Hq3x, scale_factor: hqx::HQ3X_SCALING_FACTOR }
}

/// The hq4x filter, which quadruples each side.
pub open spec fn spec_hq4x() -> Scaler {
    Scaler { kind: ScalerKind::Hq4x, scale_factor: hqx::HQ4X_SCALING_FACTOR }
}

/// The hq2x filter.
pub fn hq2x() -> (r: Scaler)
    ensures
        r == spec_hq2x(),
{
    Scaler { kind: ScalerKind::Hq2x, scale_factor: hqx::HQ2X_SCALING_FACTOR }
}

/// The hq3x filter.
pub fn hq3x() -> (r: Scaler)
    ensures
        r == spec_hq3x(),
{
    Scaler { kind: ScalerKind::Hq3x, scale_factor: hqx::HQ3X_SCALING_FACTOR }
}

/// The hq4x filter.
pub fn hq4x() -> (r: Scaler)
    ensures
        r == spec_hq4x(),
{
    Scaler { kind: ScalerKind::Hq4x, scale_factor: hqx::HQ4X_SCALING_FACTOR }
}

/// The magnification of an hqx filter (1 for the copy).
pub open spec fn kind_factor(kind: ScalerKind) -> int {
    match kind {
        ScalerKind::Copy => 1,
        ScalerKind::Hq2x => 2,
        ScalerKind::Hq3x => 3,
        ScalerKind::Hq4x => 4,
    }
}

/// What a scaler may be asked to do: the copy needs a target as long as the source; a
/// filter needs a picture of at least one pixel that the source holds, luma and chroma for
/// each source pixel, and blocks whose rows of pixels can be counted.
pub open spec fn scale_allowed(
    kind: ScalerKind,
    source: Seq<Color>,
    yuv: Seq<ColorYuv>,
    target_len: int,
    width: int,
    height: int,
) -> bool {
    match kind {
        ScalerKind::Copy => target_len == source.len(),
        _ => {
            &&& 1 <= width
            &&& 1 <= height
            &&& width * height <= source.len()
            &&& yuv.len() == source.len()
            &&& width * kind_factor(kind) * kind_factor(kind) <= usize::MAX
        },
    }
}

/// The target after scaling: the source itself for the copy, the magnified picture for a
/// filter.
pub open spec fn scaled(
    kind: ScalerKind,
    source: Seq<Color>,
    yuv: Seq<ColorYuv>,
    width: int,
    height: int,
    before: Seq<Color>,
    after: Seq<Color>,
) -> bool {
    match kind {
        ScalerKind::Copy => after == source,
        _ => hqx_scaled(kind_factor(kind), source, yuv, width, height, before, after),
    }
}

impl Scaler {
    pub fn scale_factor(&self) -> (r: usize)
        ensures
            r == self.scale_factor,
    {
        self.scale_factor
    }

    /// Scales `source_buffer`, a picture `source_width` by `source_height` pixels, into
    /// `target_buffer`. `source_yuv` holds the luma and chroma of each source pixel, which
    /// the hqx filters compare; the copy does not read it.
    pub fn scale(
        &self,
        source_buffer: &[Color],
        source_yuv: &[ColorYuv],
        target_buffer: &mut [Color],
        source_width: usize,
        source_height: usize,
    )
        requires
            scale_allowed(
                self.kind,
                source_buffer@,
                source_yuv@,
                old(target_buffer)@.len() as int,
                source_width as int,
                source_height as int,
            ),
        ensures
            scaled(
                self.kind,
                source_buffer@,
                source_yuv@,
                source_width as int,
                source_height as int,
                old(target_buffer)@,
                final(target_buffer)@,
            ),
    {
        match self.kind {
            ScalerKind::Copy => no_scaler(source_buffer, target_buffer),
            ScalerKind::Hq2x => hqx(
                hqx::HQ2X_SCALING_FACTOR,
                source_buffer,
                source_yuv,
                target_buffer,
                source_width,
                source_height,
            ),
            ScalerKind::Hq3x => hqx(
                hqx::HQ3X_SCALING_FACTOR,
                source_buffer,
                source_yuv,
                target_buffer,
                source_width,
                source_height,
            ),
            ScalerKind::Hq4x => hqx(
                hqx::HQ4X_SCALING_FACTOR,
                source_buffer,
                source_yuv,
                target_buffer,
                source_width,
                source_height,
            ),
        }
    }
}

/// The copying filter: the target buffer, of the same size, receives the source picture.
pub fn no_scaler(source_buffer: &[Color], target_buffer: &mut [Color])
    requires
        source_buffer@.len() == old(target_buffer)@.len(),
    ensures
        final(target_buffer)@ == source_buffer@,
{
    let mut i: usize = 0;
    while i < source_buffer.len()
        invariant
            0 <= i <= source_buffer@.len(),
            target_buffer@.len() == source_buffer@.len(),
            forall|j: int| 0 <= j < i ==> #[trigger] target_buffer@[j] == source_buffer@[j],
        decreases source_buffer@.len() - i,
    {
        target_buffer[i] = source_buffer[i];
        i = i + 1;
    }
    assert(target_buffer@ =~= source_buffer@);
}

} // verus!
