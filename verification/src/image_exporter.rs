//! Export of a framebuffer to image formats: the byte-level content is
//! produced here, verified; writing those bytes to a file is left to the
//! program around the library.

use crate::fixed::div_down;
use crate::renderer::buffer_view;
use crate::vector::Vec3;
use vstd::arithmetic::div_mod::{lemma_div_is_ordered, lemma_div_pos_is_pos};
use vstd::prelude::*;

verus! {

/// The possible output filetypes for the resulting image.
#[derive(Clone, Copy, PartialEq, Eq, Structural, Debug)]
pub enum OuputType {
    PNG,
    PPM,
}

/// The errors that can arise when preparing a framebuffer for export.
#[derive(Clone, Copy, PartialEq, Eq, Structural, Debug)]
pub enum ExporterError {
    /// A pixel value was negative or above the maximum allowed value.
    InvalidPixelValues,
    /// The supplied width or height was zero.
    InvalidDimensions,
}

/// A result that can return an `ExporterError`.
pub type ExporterResult<T> = Result<T, ExporterError>;

/// The 8-bit color value of a raw channel: the channel clamped into
/// `[0, 1]` and scaled by the maximum color, rounding down.
pub open spec fn color_byte_s(v: int) -> int {
    let c = if v < 0 {
        0
    } else if v > 1_000_000 {
        1_000_000
    } else {
        v
    };
    div_down(c * 255, 1_000_000)
}

/// Convert a raw channel to its 8-bit color value.
pub fn to_color_byte(v: i64) -> (r: u8)
    ensures
        r == color_byte_s(v as int),
{
    let c: i64 = if v < 0 {
        0
    } else if v > 1_000_000 {
        1_000_000
    } else {
        v
    };
    let scaled: i64 = c * 255;
    proof {
        lemma_div_pos_is_pos(scaled as int, 1_000_000);
        lemma_div_is_ordered(scaled as int, 255_000_000, 1_000_000);
    }
    (((scaled as u64) / 1_000_000) as u8)
}

/// The decimal digits of a number, most significant first, as ASCII.
pub open spec fn dec_s(n: int) -> Seq<u8>
    decreases n,
{
    if n < 10 {
        seq![(48 + n) as u8]
    } else {
        dec_s(n / 10).push((48 + n % 10) as u8)
    }
}

/// Append the decimal rendering of `n` to the output.
fn push_dec(out: &mut Vec<u8>, n: u64)
    ensures
        final(out)@ == old(out)@ + dec_s(n as int),
    decreases n,
{
    if n < 10 {
        out.push((48 + n) as u8);
        proof {
            assert(out@ =~= old(out)@ + dec_s(n as int));
        }
    } else {
        push_dec(out, n / 10);
        out.push((48 + (n % 10)) as u8);
        proof {
            assert(0 <= n % 10 < 10) by {
                vstd::arithmetic::div_mod::lemma_mod_bound(n as int, 10);
            }
            assert(out@ =~= old(out)@ + dec_s(n as int));
        }
    }
}

/// One pixel's line of a plain PPM file: the three 8-bit channels in
/// decimal, separated by spaces, ending in a newline.
pub open spec fn ppm_pixel_s(p: (int, int, int)) -> Seq<u8> {
    dec_s(color_byte_s(p.0)) + seq![32u8] + dec_s(color_byte_s(p.1)) + seq![32u8] + dec_s(
        color_byte_s(p.2),
    ) + seq![10u8]
}

/// The pixel lines of the first `n` pixels of a buffer.
pub open spec fn ppm_body_s(buf: Seq<(int, int, int)>, n: int) -> Seq<u8>
    decreases n,
{
    if n <= 0 {
        Seq::empty()
    } else {
        ppm_body_s(buf, n - 1) + ppm_pixel_s(buf[n - 1])
    }
}

/// The header of a plain PPM file: the `P3` magic, the dimensions, and
/// the maximum color value, on three lines.
pub open spec fn ppm_header_s(width: int, height: int) -> Seq<u8> {
    seq![80u8, 51u8, 10u8] + dec_s(width) + seq![32u8] + dec_s(height) + seq![10u8] + dec_s(255)
        + seq![10u8]
}

/// Export a framebuffer to the plain PPM image format.
#[derive(Clone, Copy, PartialEq, Eq, Structural, Debug)]
pub struct PPMExporter {
    /// The width of the output image.
    pub width: u32,
    /// The height of the output image.
    pub height: u32,
}

impl PPMExporter {
    /// Generate the header of the image: rejected when either dimension
    /// is zero.
    pub fn header(&self) -> (r: ExporterResult<Vec<u8>>)
        ensures
            match r {
                Ok(b) => self.width >= 1 && self.height >= 1 && b@ == ppm_header_s(
                    self.width as int,
                    self.height as int,
                ),
                Err(e) => (self.width == 0 || self.height == 0) && e
                    == ExporterError::InvalidDimensions,
            },
    {
        if self.width == 0 || self.height == 0 {
            return Err(ExporterError::InvalidDimensions);
        }
        let mut out: Vec<u8> = Vec::new();
        out.push(80);
        out.push(51);
        out.push(10);
        proof {
            assert(out@ =~= seq![80u8, 51u8, 10u8]);
        }
        push_dec(&mut out, self.width as u64);
        out.push(32);
        push_dec(&mut out, self.height as u64);
        out.push(10);
        push_dec(&mut out, 255);
        out.push(10);
        proof {
            assert(out@ =~= ppm_header_s(self.width as int, self.height as int));
        }
        Ok(out)
    }

    /// Generate the whole PPM file content for a framebuffer: the header
    /// followed by one line of decimal 8-bit channels per pixel.
    pub fn content(&self, buffer: &Vec<Vec3>) -> (r: ExporterResult<Vec<u8>>)
        ensures
            match r {
                Ok(b) => self.width >= 1 && self.height >= 1 && b@ == ppm_header_s(
                    self.width as int,
                    self.height as int,
                ) + ppm_body_s(buffer_view(buffer@), buffer@.len() as int),
                Err(e) => (self.width == 0 || self.height == 0) && e
                    == ExporterError::InvalidDimensions,
            },
    {
        let mut out: Vec<u8> = match self.header() {
            Ok(b) => b,
            Err(e) => {
                return Err(e);
            },
        };
        let ghost header = out@;
        let mut i: usize = 0;
        while i < buffer.len()
            invariant
                i <= buffer@.len(),
                out@ == header + ppm_body_s(buffer_view(buffer@), i as int),
            decreases buffer@.len() - i,
        {
            let p: Vec3 = buffer[i];
            push_dec(&mut out, to_color_byte(p.x) as u64);
            out.push(32);
            push_dec(&mut out, to_color_byte(p.y) as u64);
            out.push(32);
            push_dec(&mut out, to_color_byte(p.z) as u64);
            out.push(10);
            proof {
                assert(buffer_view(buffer@)[i as int] == p@);
                assert(out@ =~= header + ppm_body_s(buffer_view(buffer@), i + 1));
            }
            i = i + 1;
        }
        Ok(out)
    }
}

/// The flat 8-bit RGB bytes of the first `n` pixels of a buffer.
pub open spec fn rgb8_s(buf: Seq<(int, int, int)>, n: int) -> Seq<u8>
    decreases n,
{
    if n <= 0 {
        Seq::empty()
    } else {
        rgb8_s(buf, n - 1) + seq![
            color_byte_s(buf[n - 1].0) as u8,
            color_byte_s(buf[n - 1].1) as u8,
            color_byte_s(buf[n - 1].2) as u8,
        ]
    }
}

/// Export a framebuffer as 8-bit RGB rows for a compressed image format;
/// the encoder around the library writes the actual file.
#[derive(Clone, Copy, PartialEq, Eq, Structural, Debug)]
pub struct PNGExporter {
    /// The width of the output image.
    pub width: u32,
    /// The height of the output image.
    pub height: u32,
}

impl PNGExporter {
    /// Flatten a framebuffer into its 8-bit RGB bytes, row major.
    pub fn rgb8(&self, buffer: &Vec<Vec3>) -> (r: ExporterResult<Vec<u8>>)
        ensures
            match r {
                Ok(b) => self.width >= 1 && self.height >= 1 && b@ == rgb8_s(
                    buffer_view(buffer@),
                    buffer@.len() as int,
                ),
                Err(e) => (self.width == 0 || self.height == 0) && e
                    == ExporterError::InvalidDimensions,
            },
    {
        if self.width < 1 || self.height < 1 {
            return Err(ExporterError::InvalidDimensions);
        }
        let mut out: Vec<u8> = Vec::new();
        let mut i: usize = 0;
        while i < buffer.len()
            invariant
                i <= buffer@.len(),
                out@ == rgb8_s(buffer_view(buffer@), i as int),
            decreases buffer@.len() - i,
        {
            let p: Vec3 = buffer[i];
            out.push(to_color_byte(p.x));
            out.push(to_color_byte(p.y));
            out.push(to_color_byte(p.z));
            proof {
                assert(buffer_view(buffer@)[i as int] == p@);
                assert(out@ =~= rgb8_s(buffer_view(buffer@), i + 1));
            }
            i = i + 1;
        }
        Ok(out)
    }
}

/// Whether every pixel of a framebuffer lies within `[0, 1]`
/// componentwise; values outside the range are clamped by the export.
pub fn validate_pixels(buffer: &Vec<Vec3>) -> (r: ExporterResult<()>)
    ensures
        match r {
            Ok(_) => forall|i: int|
                0 <= i < buffer@.len() ==> crate::material::albedo_ok_s(
                    #[trigger] buffer_view(buffer@)[i],
                ),
            Err(e) => e == ExporterError::InvalidPixelValues && exists|i: int|
                0 <= i < buffer@.len() && !crate::material::albedo_ok_s(
                    #[trigger] buffer_view(buffer@)[i],
                ),
        },
{
    let mut i: usize = 0;
    while i < buffer.len()
        invariant
            i <= buffer@.len(),
            forall|j: int|
                0 <= j < i ==> crate::material::albedo_ok_s(#[trigger] buffer_view(buffer@)[j]),
        decreases buffer@.len() - i,
    {
        let p: Vec3 = buffer[i];
        if p.x < 0 || p.x > 1_000_000 || p.y < 0 || p.y > 1_000_000 || p.z < 0 || p.z
            > 1_000_000 {
            proof {
                assert(buffer_view(buffer@)[i as int] == p@);
            }
            return Err(ExporterError::InvalidPixelValues);
        }
        proof {
            assert(buffer_view(buffer@)[i as int] == p@);
        }
        i = i + 1;
    }
    Ok(())
}

} // verus!
