//! Header metadata: the fields of the header chunk, the animation-control
//! record, and the byte-count arithmetic derived from them.

use vstd::prelude::*;

verus! {

/// Bits per sample, restricted to the five values the format permits.
#[derive(Clone, Copy, Debug)]
pub enum BitDepth {
    /// 1 bit per sample.
    One,
    /// 2 bits per sample.
    Two,
    /// 4 bits per sample.
    Four,
    /// 8 bits per sample.
    Eight,
    /// 16 bits per sample.
    Sixteen,
}

impl BitDepth {
    /// The number of bits per sample.
    pub open spec fn bits_spec(self) -> nat {
        match self {
            BitDepth::One => 1,
            BitDepth::Two => 2,
            BitDepth::Four => 4,
            BitDepth::Eight => 8,
            BitDepth::Sixteen => 16,
        }
    }

    /// The number of bits per sample.
    pub fn bits(self) -> (r: u8)
        ensures
            r as nat == self.bits_spec(),
    {
        match self {
            BitDepth::One => 1,
            BitDepth::Two => 2,
            BitDepth::Four => 4,
            BitDepth::Eight => 8,
            BitDepth::Sixteen => 16,
        }
    }

    /// Decode the stored byte; exactly the five permitted values succeed.
    pub fn from_u8(v: u8) -> (r: Option<BitDepth>)
        ensures
            r is Some <==> (v == 1 || v == 2 || v == 4 || v == 8 || v == 16),
            r matches Some(d) ==> d.bits_spec() == v as nat,
    {
        match v {
            1 => Some(BitDepth::One),
            2 => Some(BitDepth::Two),
            4 => Some(BitDepth::Four),
            8 => Some(BitDepth::Eight),
            16 => Some(BitDepth::Sixteen),
            _ => None,
        }
    }
}

/// The color model of the image, deciding the samples per pixel.
#[derive(Clone, Copy, Debug)]
pub enum ColorType {
    /// One luminance sample.
    Grayscale,
    /// Red, green and blue samples.
    Rgb,
    /// One palette index per pixel.
    Indexed,
    /// Luminance and alpha samples.
    GrayscaleAlpha,
    /// Red, green, blue and alpha samples.
    Rgba,
}

impl ColorType {
    /// The stored code of this color type.
    pub open spec fn code_spec(self) -> nat {
        match self {
            ColorType::Grayscale => 0,
            ColorType::Rgb => 2,
            ColorType::Indexed => 3,
            ColorType::GrayscaleAlpha => 4,
            ColorType::Rgba => 6,
        }
    }

    /// Samples per pixel for this color type.
    pub open spec fn samples_spec(self) -> nat {
        match self {
            ColorType::Grayscale => 1,
            ColorType::Rgb => 3,
            ColorType::Indexed => 1,
            ColorType::GrayscaleAlpha => 2,
            ColorType::Rgba => 4,
        }
    }

    /// Samples per pixel for this color type.
    pub fn samples(self) -> (r: u8)
        ensures
            r as nat == self.samples_spec(),
    {
        match self {
            ColorType::Grayscale => 1,
            ColorType::Rgb => 3,
            ColorType::Indexed => 1,
            ColorType::GrayscaleAlpha => 2,
            ColorType::Rgba => 4,
        }
    }

    /// Decode the stored byte; exactly the five permitted codes succeed.
    pub fn from_u8(v: u8) -> (r: Option<ColorType>)
        ensures
            r is Some <==> (v == 0 || v == 2 || v == 3 || v == 4 || v == 6),
            r matches Some(c) ==> c.code_spec() == v as nat,
    {
        match v {
            0 => Some(ColorType::Grayscale),
            2 => Some(ColorType::Rgb),
            3 => Some(ColorType::Indexed),
            4 => Some(ColorType::GrayscaleAlpha),
            6 => Some(ColorType::Rgba),
            _ => None,
        }
    }
}

/// Whether a bit depth is permitted for a color type.
pub open spec fn depth_allowed_spec(depth: BitDepth, color: ColorType) -> bool {
    match color {
        ColorType::Grayscale => true,
        ColorType::Rgb => depth.bits_spec() == 8 || depth.bits_spec() == 16,
        ColorType::Indexed => depth.bits_spec() <= 8,
        ColorType::GrayscaleAlpha => depth.bits_spec() == 8 || depth.bits_spec() == 16,
        ColorType::Rgba => depth.bits_spec() == 8 || depth.bits_spec() == 16,
    }
}

/// Whether a bit depth is permitted for a color type.
pub fn depth_allowed(depth: BitDepth, color: ColorType) -> (r: bool)
    ensures
        r == depth_allowed_spec(depth, color),
{
    let bits = depth.bits();
    match color {
        ColorType::Grayscale => true,
        ColorType::Rgb => bits == 8 || bits == 16,
        ColorType::Indexed => bits <= 8,
        ColorType::GrayscaleAlpha => bits == 8 || bits == 16,
        ColorType::Rgba => bits == 8 || bits == 16,
    }
}

/// The animation-control record: expected frame and loop counts.
#[derive(Clone, Copy, Debug)]
pub struct AnimationControl {
    /// Number of animation frames the stream declares.
    pub num_frames: u32,
    /// Number of plays, `0` meaning indefinitely.
    pub num_plays: u32,
}

/// Header metadata, built once when the header chunk (and, if present, the
/// animation-control chunk) is fully parsed.
#[derive(Clone, Copy, Debug)]
pub struct Info {
    /// Image width in pixels; never zero.
    pub width: u32,
    /// Image height in pixels; never zero.
    pub height: u32,
    /// Bits per sample.
    pub bit_depth: BitDepth,
    /// Color model.
    pub color_type: ColorType,
    /// Whether the image data is interlaced over seven passes.
    pub interlaced: bool,
    /// Animation-control record, if the stream declared one.
    pub animation_control: Option<AnimationControl>,
}

/// Bytes of one scanline of `width` pixels at `bpp` bits per pixel,
/// including the leading filter byte; zero for an empty pass.
pub open spec fn scanline_bytes_spec(width: nat, bpp: nat) -> nat {
    if width == 0 {
        0
    } else {
        1 + (width * bpp + 7) / 8
    }
}

/// Decompressed bytes contributed by a pass of `width` by `height` pixels:
/// each row carries a filter byte plus its packed samples.
pub open spec fn pass_bytes_spec(width: nat, height: nat, bpp: nat) -> nat {
    if width == 0 || height == 0 {
        0
    } else {
        height * scanline_bytes_spec(width, bpp)
    }
}

impl Info {
    /// Bits per pixel: samples per pixel times bits per sample.
    pub open spec fn bits_per_pixel_spec(self) -> nat {
        self.bit_depth.bits_spec() * self.color_type.samples_spec()
    }

    /// The exact number of decompressed image-data bytes this header
    /// promises: for each scanline of each (interlace) pass, one filter
    /// byte plus the pixel samples packed into whole bytes.
    pub open spec fn expected_data_size_spec(self) -> nat {
        let w = self.width as nat;
        let h = self.height as nat;
        let bpp = self.bits_per_pixel_spec();
        if self.interlaced {
            pass_bytes_spec((w + 7) / 8, (h + 7) / 8, bpp) + pass_bytes_spec(
                (w + 3) / 8,
                (h + 7) / 8,
                bpp,
            ) + pass_bytes_spec((w + 3) / 4, (h + 3) / 8, bpp) + pass_bytes_spec(
                (w + 1) / 4,
                (h + 3) / 4,
                bpp,
            ) + pass_bytes_spec((w + 1) / 2, (h + 1) / 4, bpp) + pass_bytes_spec(
                w / 2,
                (h + 1) / 2,
                bpp,
            ) + pass_bytes_spec(w, h / 2, bpp)
        } else {
            pass_bytes_spec(w, h, bpp)
        }
    }

    /// Compute [`Info::expected_data_size_spec`]; wide arithmetic keeps
    /// every admissible header in range.
    pub fn expected_data_size(&self) -> (r: u128)
        ensures
            r as nat == self.expected_data_size_spec(),
    {
        let bpp = (self.bit_depth.bits() as u128) * (self.color_type.samples() as u128);
        let w = self.width as u128;
        let h = self.height as u128;
        if self.interlaced {
            let p1 = pass_bytes((w + 7) / 8, (h + 7) / 8, bpp);
            let p2 = pass_bytes((w + 3) / 8, (h + 7) / 8, bpp);
            let p3 = pass_bytes((w + 3) / 4, (h + 3) / 8, bpp);
            let p4 = pass_bytes((w + 1) / 4, (h + 3) / 4, bpp);
            let p5 = pass_bytes((w + 1) / 2, (h + 1) / 4, bpp);
            let p6 = pass_bytes(w / 2, (h + 1) / 2, bpp);
            let p7 = pass_bytes(w, h / 2, bpp);
            p1 + p2 + p3 + p4 + p5 + p6 + p7
        } else {
            pass_bytes(w, h, bpp)
        }
    }
}

/// Compute [`pass_bytes_spec`] for in-range pass dimensions.
fn pass_bytes(width: u128, height: u128, bpp: u128) -> (r: u128)
    requires
        width <= 0xffff_ffff,
        height <= 0xffff_ffff,
        bpp <= 64,
    ensures
        r as nat == pass_bytes_spec(width as nat, height as nat, bpp as nat),
        r <= 0xffff_ffff * 0x10_0000_0001,
{
    if width == 0 || height == 0 {
        0
    } else {
        proof {
            assert((width as int) * (bpp as int) <= 0xffff_ffff * 64) by (nonlinear_arith)
                requires
                    0 <= width as int <= 0xffff_ffff,
                    0 <= bpp as int <= 64,
            ;
        }
        let row = width * bpp;
        let line = 1 + (row + 7) / 8;
        proof {
            assert((height as int) * (line as int) <= 0xffff_ffff * 0x10_0000_0001)
                by (nonlinear_arith)
                requires
                    0 <= height as int <= 0xffff_ffff,
                    0 <= line as int <= 0x10_0000_0001,
            ;
        }
        let total = height * line;
        assert(total as nat == pass_bytes_spec(width as nat, height as nat, bpp as nat));
        total
    }
}

} // verus!
