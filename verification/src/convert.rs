//! Interleaved-to-planar color-space conversion.
//!
//! A validated [`PixelData`] snapshot is reordered to alpha-red-green-blue
//! and handed to `dcv_color_primitives`, which fills three full-resolution
//! planes (luma plus two chroma planes, 4:4:4 sampling) under the BT.709
//! matrix.  The destination buffers are pre-sized through the crate's own
//! size query before the conversion runs.

use vstd::prelude::*;

use crate::pixels::Dimensions;
use crate::pixels::PixelData;
use crate::pixels::argb_of;
use dcv_color_primitives as dcp;

verus! {

/// Failure kinds of the external conversion routine, mirrored one to one
/// from `dcv_color_primitives::ErrorKind`.  All are fatal for the frame
/// being converted: they signal a malformed buffer or mismatched geometry,
/// not a transient condition.
#[derive(Clone, Copy, PartialEq, Eq, Structural, Debug)]
pub enum ConvertError {
    /// One or more parameters have invalid values.
    InvalidValue,
    /// The combination of parameters is unsupported.
    InvalidOperation,
    /// A provided buffer is too small.
    NotEnoughData,
}

/// The three planes that `dcv_color_primitives::convert_image` fills when
/// converting an alpha-red-green-blue buffer of the given geometry to
/// 4:4:4 planar BT.709: luma first, then the two chroma planes.  The result
/// depends on the source bytes and the geometry alone.
pub uninterp spec fn i444_from_argb(argb: Seq<u8>, width: int, height: int) -> (Seq<u8>, Seq<
    u8,
>, Seq<u8>);

/// Relies on dcv_color_primitives::get_buffers_size: for three-plane 4:4:4
/// output with tightly packed rows it reports `width * height` bytes for
/// each plane and cannot fail for that format.
#[verifier::external_body]
fn i444_plane_sizes(width: u32, height: u32) -> (r: (usize, usize, usize))
    ensures
        r.0 == width * height,
        r.1 == width * height,
        r.2 == width * height,
{
    let format = dcp::ImageFormat { pixel_format: dcp::PixelFormat::I444, color_space: dcp::ColorSpace::Bt709, num_planes: 3 };
    let mut sizes: [usize; 3] = [0; 3];
    dcp::get_buffers_size(width, height, &format, None, &mut sizes)
        .expect("three planes are compatible with the 4:4:4 format");
    (sizes[0], sizes[1], sizes[2])
}

/// Relies on dcv_color_primitives::convert_image: with a single-plane
/// alpha-red-green-blue source, a three-plane 4:4:4 BT.709 destination and
/// exactly sized buffers it fills the planes and returns success; the slices
/// keep their lengths, and the output depends only on the source bytes and
/// the geometry.
#[verifier::external_body]
fn dcp_convert_argb_to_i444(
    width: u32,
    height: u32,
    src: &Vec<u8>,
    y: &mut Vec<u8>,
    u: &mut Vec<u8>,
    v: &mut Vec<u8>,
) -> (r: Result<(), ConvertError>)
    requires
        width > 0 && height > 0,
        src@.len() == width * height * 4,
        old(y)@.len() == width * height,
        old(u)@.len() == width * height,
        old(v)@.len() == width * height,
    ensures
        r is Ok,
        final (y)@.len() == old(y)@.len(),
        final (u)@.len() == old(u)@.len(),
        final (v)@.len() == old(v)@.len(),
        (final (y)@, final (u)@, final (v)@) == i444_from_argb(
            src@,
            width as int,
            height as int,
        ),
{
    let src_format = dcp::ImageFormat { pixel_format: dcp::PixelFormat::Argb, color_space: dcp::ColorSpace::Rgb, num_planes: 1 };
    let dst_format = dcp::ImageFormat { pixel_format: dcp::PixelFormat::I444, color_space: dcp::ColorSpace::Bt709, num_planes: 3 };
    let src_buffers: &[&[u8]] = &[src.as_slice()];
    let dst_buffers: &mut [&mut [u8]] = &mut [y.as_mut_slice(), u.as_mut_slice(), v.as_mut_slice()];
    match dcp::convert_image(width, height, &src_format, None, src_buffers, &dst_format, None, dst_buffers) {
        Ok(()) => Ok(()),
        Err(dcp::ErrorKind::InvalidValue) => Err(ConvertError::InvalidValue),
        Err(dcp::ErrorKind::InvalidOperation) => Err(ConvertError::InvalidOperation),
        Err(dcp::ErrorKind::NotEnoughData) => Err(ConvertError::NotEnoughData),
    }
}

/// One converted frame: a full-resolution luma plane and two chroma planes,
/// all under 4:4:4 sampling, tagged with the geometry they were converted
/// at.  The color profile is fixed: BT.709 primaries, transfer and matrix.
pub struct PlanarFrame {
    pub y: Vec<u8>,
    pub u: Vec<u8>,
    pub v: Vec<u8>,
    pub dim: Dimensions,
}

impl PlanarFrame {
    /// Well-formedness: positive geometry, and all three planes hold one
    /// byte per pixel of it.
    pub open spec fn wf(self) -> bool {
        &&& self.dim.wf()
        &&& self.y@.len() == self.dim.spec_pixels()
        &&& self.u@.len() == self.dim.spec_pixels()
        &&& self.v@.len() == self.dim.spec_pixels()
    }
}

/// What it means for a planar frame to be the conversion of a snapshot:
/// the planes are exactly what the external routine produces from the
/// reordered bytes at the snapshot's geometry.
pub open spec fn is_conversion_of(f: PlanarFrame, b: PixelData) -> bool {
    &&& f.dim == b.spec_dim()
    &&& (f.y@, f.u@, f.v@) == i444_from_argb(
        argb_of(b.bytes_view()),
        b.spec_dim().width as int,
        b.spec_dim().height as int,
    )
}

impl PixelData {
    /// Convert this snapshot to planar 4:4:4 BT.709: reorder the channels,
    /// pre-size the destination planes, and run the external color-matrix
    /// routine.  Both stages are functions of the bytes and the geometry
    /// alone, so converting equal snapshots yields equal frames.
    pub fn to_i444(&self) -> (r: PlanarFrame)
        requires
            self.wf(),
        ensures
            r.wf(),
            is_conversion_of(r, *self),
    {
        let dim = self.dim();
        let argb = self.to_argb();
        let sizes = i444_plane_sizes(dim.width, dim.height);
        let mut y = zero_bytes(sizes.0);
        let mut u = zero_bytes(sizes.1);
        let mut v = zero_bytes(sizes.2);
        let outcome = dcp_convert_argb_to_i444(dim.width, dim.height, &argb, &mut y, &mut u, &mut v);
        proof {
            assert(outcome is Ok);
        }
        PlanarFrame { y, u, v, dim }
    }
}

/// A zero-filled buffer of the requested length, used to pre-size the
/// destination planes.
fn zero_bytes(n: usize) -> (r: Vec<u8>)
    ensures
        r@.len() == n,
{
    let mut out: Vec<u8> = Vec::new();
    let mut i: usize = 0;
    while i < n
        invariant
            i <= n,
            out@.len() == i,
        decreases n - i,
    {
        out.push(0);
        i = i + 1;
    }
    out
}

/// Conversion is deterministic: two frames converted from snapshots with
/// equal bytes and equal geometry are byte-identical in all three planes.
pub proof fn lemma_conversion_deterministic(
    b1: PixelData,
    b2: PixelData,
    f1: PlanarFrame,
    f2: PlanarFrame,
)
    requires
        b1.bytes_view() == b2.bytes_view(),
        b1.spec_dim() == b2.spec_dim(),
        is_conversion_of(f1, b1),
        is_conversion_of(f2, b2),
    ensures
        f1.y@ == f2.y@,
        f1.u@ == f2.u@,
        f1.v@ == f2.v@,
        f1.dim == f2.dim,
{
}

/// Plane sizing under 4:4:4 sampling: all three planes of a well-formed
/// planar frame have the same pixel count, `width * height`.
pub proof fn lemma_plane_sizing(f: PlanarFrame)
    requires
        f.wf(),
    ensures
        f.y@.len() == f.dim.spec_pixels(),
        f.u@.len() == f.y@.len(),
        f.v@.len() == f.y@.len(),
{
}

} // verus!
