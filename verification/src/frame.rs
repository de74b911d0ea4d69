//! Decoded frames: an RGBA raster of known width and height.

use vstd::prelude::*;

verus! {

/// Number of pixels in a `width` by `height` raster.
pub fn pixel_area(width: u32, height: u32) -> (area: u64)
    ensures
        area == width as nat * height as nat,
        area <= 0xFFFF_FFFE_0000_0001,
{
    assert(width as nat * height as nat <= 0xFFFF_FFFF * 0xFFFF_FFFF) by (nonlinear_arith)
        requires
            width <= 0xFFFF_FFFF,
            height <= 0xFFFF_FFFF,
    ;
    width as u64 * height as u64
}

/// An in-memory RGBA raster, row-major, four bytes (R, G, B, A) per pixel.
///
/// The pixel buffer always holds exactly `width * height` pixels.
#[derive(Debug)]
pub struct RgbaFrame {
    width: u32,
    height: u32,
    data: Vec<u8>,
}

impl View for RgbaFrame {
    type V = Seq<u8>;

    /// The raw RGBA bytes, row-major.
    closed spec fn view(&self) -> Seq<u8> {
        self.data@
    }
}

impl Clone for RgbaFrame {
    /// A copy with the same geometry and the same pixels.
    fn clone(&self) -> (copy: Self)
        ensures
            copy@ == self@,
            copy.width() == self.width(),
            copy.height() == self.height(),
    {
        proof {
            use_type_invariant(self);
        }
        let data = self.data.clone();
        assert(data@ =~= self.data@);
        RgbaFrame { width: self.width, height: self.height, data }
    }
}

impl RgbaFrame {
    /// Width in pixels.
    pub closed spec fn spec_width(&self) -> u32 {
        self.width
    }

    /// Height in pixels.
    pub closed spec fn spec_height(&self) -> u32 {
        self.height
    }

    /// Number of pixels.
    pub open spec fn spec_pixel_count(&self) -> nat {
        self.spec_width() as nat * self.spec_height() as nat
    }

    #[verifier::type_invariant]
    closed spec fn well_formed(&self) -> bool {
        self.data@.len() == 4 * (self.width as nat * self.height as nat)
    }

    /// Wraps a raw RGBA buffer, if it holds exactly `width * height` pixels.
    pub fn from_raw(width: u32, height: u32, data: Vec<u8>) -> (frame: Option<RgbaFrame>)
        ensures
            frame is Some <==> data@.len() == 4 * (width as nat * height as nat),
            frame matches Some(f) ==> f.width() == width && f.height() == height && f@ == data@,
    {
        let expected: u128 = 4 * (pixel_area(width, height) as u128);
        if data.len() as u128 == expected {
            Some(RgbaFrame { width, height, data })
        } else {
            None
        }
    }

    /// Width in pixels.
    #[verifier::when_used_as_spec(spec_width)]
    pub fn width(&self) -> (w: u32)
        ensures
            w == self.spec_width(),
    {
        self.width
    }

    /// Height in pixels.
    #[verifier::when_used_as_spec(spec_height)]
    pub fn height(&self) -> (h: u32)
        ensures
            h == self.spec_height(),
    {
        self.height
    }

    /// Number of pixels.
    pub fn pixel_count(&self) -> (n: usize)
        ensures
            n == self.spec_pixel_count(),
            self@.len() == 4 * n,
    {
        proof {
            use_type_invariant(self);
        }
        self.data.len() / 4
    }

    /// The raw RGBA bytes, row-major.
    pub fn as_bytes(&self) -> (bytes: &Vec<u8>)
        ensures
            bytes@ == self@,
            bytes@.len() == 4 * self.spec_pixel_count(),
    {
        proof {
            use_type_invariant(self);
        }
        &self.data
    }
}

} // verus!
