use vstd::prelude::*;

use crate::image::Image;

verus! {

#[verifier::external_type_specification]
#[verifier::external_body]
pub struct ExEncodingError(png::EncodingError);

/// Why an image could not be encoded as PNG.
#[derive(Debug, Clone, Copy, PartialEq, Eq, Structural)]
pub enum EncodeError {
    /// The width or the height does not fit in the 32 bits that PNG stores.
    TooLarge,
    /// The PNG encoder refused the image; it does not for an image whose
    /// sides fit in 32 bits.
    Encoder,
}

/// Chromaticity coordinates of a color space's white point and primaries,
/// each scaled by 100000 as the PNG `cHRM` chunk stores them.
#[derive(Debug, Clone, Copy, PartialEq, Eq, Structural)]
pub struct Chromaticities {
    pub white_x: u32,
    pub white_y: u32,
    pub red_x: u32,
    pub red_y: u32,
    pub green_x: u32,
    pub green_y: u32,
    pub blue_x: u32,
    pub blue_y: u32,
}

/// The sRGB white point and primaries.
pub open spec fn srgb_chromaticities() -> Chromaticities {
    Chromaticities {
        white_x: 31270,
        white_y: 32900,
        red_x: 64000,
        red_y: 33000,
        green_x: 30000,
        green_y: 60000,
        blue_x: 15000,
        blue_y: 6000,
    }
}

impl Chromaticities {
    /// The sRGB white point and primaries.
    pub fn srgb() -> (r: Chromaticities)
        ensures
            r == srgb_chromaticities(),
    {
        Chromaticities {
            white_x: 31270,
            white_y: 32900,
            red_x: 64000,
            red_y: 33000,
            green_x: 30000,
            green_y: 60000,
            blue_x: 15000,
            blue_y: 6000,
        }
    }
}

/// The four bytes of `v`, most significant first.
pub open spec fn be32(v: u32) -> Seq<u8> {
    seq![
        (v / 0x1000000) as u8,
        (v / 0x10000 % 0x100) as u8,
        (v / 0x100 % 0x100) as u8,
        (v % 0x100) as u8,
    ]
}

/// The PNG signature followed by an `IHDR` chunk up to its checksum, for an
/// RGB image with eight bits per channel, no interlacing.
pub open spec fn png_header_start(width: u32, height: u32) -> Seq<u8> {
    seq![137u8, 80, 78, 71, 13, 10, 26, 10, 0, 0, 0, 13, 73, 72, 68, 82] + be32(width) + be32(
        height,
    ) + seq![8u8, 2, 0, 0, 0]
}

/// A `cHRM` chunk up to its checksum.
pub open spec fn chrm_start(c: Chromaticities) -> Seq<u8> {
    seq![0u8, 0, 0, 32, 99, 72, 82, 77] + be32(c.white_x) + be32(c.white_y) + be32(c.red_x)
        + be32(c.red_y) + be32(c.green_x) + be32(c.green_y) + be32(c.blue_x) + be32(c.blue_y)
}

/// Where the chromaticity chunk starts: after the signature and the
/// 25-byte `IHDR` chunk.
pub open spec fn chrm_offset() -> int {
    33
}

/// What every encoded file of this library begins with: the signature, the
/// header for `width` by `height` RGB pixels of eight bits, and then the
/// chromaticities `c`, each chunk followed by its checksum.
pub open spec fn png_starts_with(bytes: Seq<u8>, width: u32, height: u32, c: Chromaticities) -> bool {
    &&& bytes.len() >= chrm_offset() + 40
    &&& bytes.subrange(0, 29) == png_header_start(width, height)
    &&& bytes.subrange(chrm_offset(), chrm_offset() + 40) == chrm_start(c)
}

/// The PNG file that png 0.17 writes for `width` by `height` RGB pixels of
/// eight bits, `data` row by row from the top, tagged with the chromaticities
/// `c`: its compressed pixel data depends on these arguments alone.
pub uninterp spec fn png_rgb8_file(width: u32, height: u32, c: Chromaticities, data: Seq<u8>) -> Seq<
    u8,
>;

/// Relies on png 0.17's `Encoder::new`, `set_color`, `set_depth`,
/// `set_source_chromaticities` and `write_header`, and on `Writer`'s
/// `write_image_data` and `finish`, writing into memory, where no write
/// fails. `write_header` refuses a zero width or height and otherwise writes
/// the signature, the `IHDR` chunk and, with no gamma or sRGB intent set,
/// the `cHRM` chunk; `write_image_data` accepts data of three bytes a pixel,
/// which the caller owes (its size computation would overflow on much
/// shorter data for a huge image).
#[verifier::external_body]
fn encode_rgb8(width: u32, height: u32, c: &Chromaticities, data: &[u8]) -> (r: Result<
    Vec<u8>,
    png::EncodingError,
>)
    requires
        data@.len() == 3 * width * height,
    ensures
        r is Ok <==> (width > 0 && height > 0),
        r is Ok ==> ({
            &&& r->Ok_0@ == png_rgb8_file(width, height, *c, data@)
            &&& png_starts_with(r->Ok_0@, width, height, *c)
        }),
{
    let mut out: Vec<u8> = Vec::new();
    let mut enc = png::Encoder::new(&mut out, width, height);
    enc.set_color(png::ColorType::Rgb);
    enc.set_depth(png::BitDepth::Eight);
    let s = png::ScaledFloat::from_scaled;
    enc.set_source_chromaticities(png::SourceChromaticities {
        white: (s(c.white_x), s(c.white_y)),
        red: (s(c.red_x), s(c.red_y)),
        green: (s(c.green_x), s(c.green_y)),
        blue: (s(c.blue_x), s(c.blue_y)),
    });
    let mut w = enc.write_header()?;
    w.write_image_data(data)?;
    w.finish()?;
    Ok(out)
}

impl Image {
    /// The image as a PNG file: eight bits per channel, RGB, the stored
    /// bytes row by row from the top, tagged with the sRGB chromaticities.
    /// It fails only where a side does not fit in the 32 bits PNG stores.
    pub fn encode_png(&self) -> (r: Result<Vec<u8>, EncodeError>)
        ensures
            (self.spec_width() > u32::MAX || self.spec_height() > u32::MAX) <==> r == Err::<
                Vec<u8>,
                EncodeError,
            >(EncodeError::TooLarge),
            r is Ok <==> (self.spec_width() <= u32::MAX && self.spec_height() <= u32::MAX),
            r is Ok ==> r->Ok_0@ == png_rgb8_file(
                self.spec_width() as u32,
                self.spec_height() as u32,
                srgb_chromaticities(),
                self.bytes(),
            ),
            r is Ok ==> png_starts_with(
                r->Ok_0@,
                self.spec_width() as u32,
                self.spec_height() as u32,
                srgb_chromaticities(),
            ),
    {
        let width = self.width();
        let height = self.height();
        if width > u32::MAX as usize || height > u32::MAX as usize {
            return Err(EncodeError::TooLarge);
        }
        let c = Chromaticities::srgb();
        match encode_rgb8(width as u32, height as u32, &c, self.as_bytes()) {
            Ok(bytes) => Ok(bytes),
            Err(_) => Err(EncodeError::Encoder),
        }
    }
}

} // verus!
