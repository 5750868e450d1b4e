//! Raw captured pixel data and its geometry.
//!
//! A snapshot of the drawable surface arrives as one interleaved buffer of
//! four bytes per pixel (red, green, blue, alpha).  `PixelData` couples such
//! a buffer with its `Dimensions` and guarantees, from construction on, that
//! the byte count matches the geometry.

use vstd::prelude::*;

verus! {

/// Geometry of a captured pixel snapshot.
#[derive(Clone, Copy, PartialEq, Eq, Structural, Debug)]
pub struct Dimensions {
    pub width: u32,
    pub height: u32,
}

impl Dimensions {
    /// Number of pixels covered by these dimensions.
    pub open spec fn spec_pixels(self) -> int {
        self.width * self.height
    }

    /// Positive on both axes: what every buffer sized by these dimensions
    /// relies on.
    pub open spec fn wf(self) -> bool {
        self.width > 0 && self.height > 0
    }

    pub fn new(width: u32, height: u32) -> (r: Dimensions)
        ensures
            r.width == width,
            r.height == height,
    {
        Dimensions { width, height }
    }
}

/// Why a `PixelData` could not be constructed.
#[derive(Clone, Copy, PartialEq, Eq, Structural, Debug)]
pub enum PixelDataError {
    /// One of the sides of the dimensions is zero.
    DegenerateDimensions,
    /// The byte count does not equal `width * height * 4`.
    LengthMismatch,
}

/// An interleaved red-green-blue-alpha snapshot of the drawable surface.
///
/// Invariant: the buffer holds exactly four bytes per pixel of its
/// dimensions, and both sides of the dimensions are positive.  Only the
/// validating factory `new` constructs one, so every value in circulation
/// satisfies `wf`.
pub struct PixelData {
    bytes: Vec<u8>,
    dim: Dimensions,
}

impl PixelData {
    /// The raw interleaved bytes, red first within each group of four.
    pub closed spec fn bytes_view(self) -> Seq<u8> {
        self.bytes@
    }

    pub closed spec fn spec_dim(self) -> Dimensions {
        self.dim
    }

    /// Well-formedness: positive geometry and four bytes per pixel.
    pub open spec fn wf(self) -> bool {
        self.spec_dim().wf() && self.bytes_view().len() == self.spec_dim().spec_pixels() * 4
    }

    /// Validating factory: accepts the buffer exactly when the dimensions
    /// are positive and the byte count is four per pixel.
    pub fn new(data: Vec<u8>, dim: Dimensions) -> (r: Result<PixelData, PixelDataError>)
        ensures
            r is Ok <==> dim.wf() && data@.len() == dim.spec_pixels() * 4,
            r matches Ok(p) ==> p.bytes_view() == data@ && p.spec_dim() == dim && p.wf(),
            r matches Err(e) ==> (e is DegenerateDimensions <==> !dim.wf()),
    {
        if dim.width == 0 || dim.height == 0 {
            return Err(PixelDataError::DegenerateDimensions);
        }
        let w: u128 = dim.width as u128;
        let h: u128 = dim.height as u128;
        proof {
            assert(w * h * 4 <= 0xffff_ffffu128 * 0xffff_ffffu128 * 4) by (nonlinear_arith)
                requires
                    w <= 0xffff_ffffu128,
                    h <= 0xffff_ffffu128,
            ;
        }
        let expected: u128 = w * h * 4;
        if (data.len() as u128) != expected {
            return Err(PixelDataError::LengthMismatch);
        }
        Ok(PixelData { bytes: data, dim })
    }

    /// The dimensions the buffer was captured at.
    pub fn dim(&self) -> (r: Dimensions)
        ensures
            r == self.spec_dim(),
    {
        self.dim
    }

    /// The underlying interleaved bytes, in red-green-blue-alpha order with
    /// integer values between 0 and 255 inclusive.
    pub fn rgba(&self) -> (r: Vec<u8>)
        ensures
            r@ == self.bytes_view(),
    {
        self.bytes.clone()
    }
}

/// The buffer with each four-byte pixel group rotated one place to the
/// right: red-green-blue-alpha becomes alpha-red-green-blue.  This is the
/// channel order the color-space conversion expects.
pub open spec fn argb_of(s: Seq<u8>) -> Seq<u8> {
    Seq::new(s.len(), |i: int| if i % 4 == 0 { s[i + 3] } else { s[i - 1] })
}

impl PixelData {
    /// Reorder the interleaved bytes from red-green-blue-alpha to
    /// alpha-red-green-blue by rotating each pixel group right by one.
    pub fn to_argb(&self) -> (r: Vec<u8>)
        requires
            self.wf(),
        ensures
            r@ == argb_of(self.bytes_view()),
    {
        let n = self.bytes.len();
        let mut out: Vec<u8> = Vec::new();
        let mut i: usize = 0;
        proof {
            assert(n % 4 == 0) by {
                assert(self.bytes@.len() == self.dim.spec_pixels() * 4);
            }
        }
        while i < n
            invariant
                i <= n,
                i % 4 == 0,
                n % 4 == 0,
                n == self.bytes@.len(),
                out@.len() == i,
                forall|j: int| 0 <= j < i ==> out@[j] == argb_of(self.bytes@)[j],
            decreases n - i,
        {
            let a = self.bytes[i + 3];
            let r0 = self.bytes[i];
            let g = self.bytes[i + 1];
            let b = self.bytes[i + 2];
            out.push(a);
            out.push(r0);
            out.push(g);
            out.push(b);
            i = i + 4;
        }
        proof {
            assert(out@ =~= argb_of(self.bytes@));
        }
        out
    }
}

} // verus!
