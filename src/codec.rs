//! The RGBA pixel buffer, its decoding from image bytes, and its encoding
//! into the file format that a target path names.

use vstd::prelude::*;
use vstd::string::*;

verus! {

/// An image of `width` × `height` pixels, four bytes (R, G, B, A) each,
/// stored row by row.
pub struct PixelBuffer {
    width: u32,
    height: u32,
    data: Vec<u8>,
}

/// Whether `len` bytes hold exactly `width` × `height` RGBA pixels.
pub open spec fn rgba_len_ok(width: u32, height: u32, len: nat) -> bool {
    len == 4 * (width as nat) * (height as nat)
}

impl View for PixelBuffer {
    type V = (u32, u32, Seq<u8>);

    closed spec fn view(&self) -> (u32, u32, Seq<u8>) {
        (self.width, self.height, self.data@)
    }
}

impl PixelBuffer {
    #[verifier::type_invariant]
    spec fn well_formed(self) -> bool {
        rgba_len_ok(self.width, self.height, self.data@.len())
    }

    /// A buffer of the given size with every byte zero (transparent black).
    pub fn blank(width: u32, height: u32) -> (r: PixelBuffer)
        requires
            4 * (width as nat) * (height as nat) <= usize::MAX,
        ensures
            r@.0 == width,
            r@.1 == height,
            r@.2 == Seq::new(4 * (width as nat) * (height as nat), |i: int| 0u8),
    {
        let ghost total = 4 * (width as nat) * (height as nat);
        proof {
            assert(4 * ((width as u64) * (height as u64)) == 4 * (width as nat) * (height as nat))
                by (nonlinear_arith);
            assert((width as u64) * (height as u64) <= u64::MAX) by (nonlinear_arith)
                requires
                    width <= u32::MAX,
                    height <= u32::MAX,
            ;
        }
        let n: usize = (4 * ((width as u64) * (height as u64))) as usize;
        let mut data: Vec<u8> = Vec::new();
        let mut i: usize = 0;
        while i < n
            invariant
                i <= n,
                n == total,
                data@ == Seq::new(i as nat, |j: int| 0u8),
            decreases n - i,
        {
            data.push(0u8);
            proof {
                assert(data@ =~= Seq::new((i + 1) as nat, |j: int| 0u8));
            }
            i = i + 1;
        }
        proof {
            assert(data@ =~= Seq::new(total, |j: int| 0u8));
        }
        PixelBuffer { width, height, data }
    }

    /// Takes raw RGBA bytes; refuses a length that does not match the size.
    pub fn from_raw(width: u32, height: u32, data: Vec<u8>) -> (r: Option<PixelBuffer>)
        ensures
            r is Some <==> rgba_len_ok(width, height, data@.len()),
            r matches Some(b) ==> b@ == (width, height, data@),
    {
        proof {
            assert((width as u128) * (height as u128) <= 0xffff_ffff_ffff_ffff_ffff_ffff_ffff_ffffu128 / 4)
                by (nonlinear_arith)
                requires
                    width <= u32::MAX,
                    height <= u32::MAX,
            ;
        }
        let need: u128 = 4 * ((width as u128) * (height as u128));
        proof {
            assert(need == 4 * (width as nat) * (height as nat)) by (nonlinear_arith)
                requires
                    need == 4 * ((width as u128) * (height as u128)),
            ;
        }
        if data.len() as u128 == need {
            Some(PixelBuffer { width, height, data })
        } else {
            None
        }
    }

    pub fn width(&self) -> (r: u32)
        ensures
            r == self@.0,
    {
        self.width
    }

    pub fn height(&self) -> (r: u32)
        ensures
            r == self@.1,
    {
        self.height
    }

    /// The pixel bytes; there are always four per pixel.
    pub fn as_raw(&self) -> (r: &Vec<u8>)
        ensures
            r@ == self@.2,
            rgba_len_ok(self@.0, self@.1, r@.len()),
    {
        proof {
            use_type_invariant(self);
        }
        &self.data
    }

    pub fn into_raw(self) -> (r: Vec<u8>)
        ensures
            r@ == self@.2,
    {
        self.data
    }

    pub fn clone_buffer(&self) -> (r: PixelBuffer)
        ensures
            r@ == self@,
    {
        proof {
            use_type_invariant(self);
        }
        PixelBuffer { width: self.width, height: self.height, data: self.data.clone() }
    }
}

/// The RGBA image (width, height, bytes) that the image crate decodes
/// from encoded bytes, or `None` where it reports an error.
pub uninterp spec fn rgba_decoded(bytes: Seq<u8>) -> Option<(u32, u32, Seq<u8>)>;

/// Relies on image::load_from_memory and DynamicImage::to_rgba8: the format
/// is guessed from the bytes, the pixels are converted to RGBA into a
/// buffer of exactly four bytes per pixel, and errors are reported. The
/// JPEG decoder is built with its `platform_independent` feature, so the
/// pixels are the same on every machine.
#[verifier::external_body]
fn decode_rgba(bytes: &[u8]) -> (r: Result<(u32, u32, Vec<u8>), String>)
    ensures
        r is Ok <==> rgba_decoded(bytes@) is Some,
        r matches Ok(t) ==> (rgba_decoded(bytes@) == Some((t.0, t.1, t.2@)) && rgba_len_ok(
            t.0,
            t.1,
            t.2@.len(),
        )),
{
    match image::load_from_memory(bytes) {
        Ok(img) => {
            let rgba = img.to_rgba8();
            Ok((rgba.width(), rgba.height(), rgba.into_raw()))
        },
        Err(e) => Err(e.to_string()),
    }
}

/// Decodes an encoded image (PNG or JPEG) into an RGBA buffer.
pub fn decode_image(bytes: &[u8]) -> (r: Result<PixelBuffer, String>)
    ensures
        r is Ok <==> rgba_decoded(bytes@) is Some,
        r matches Ok(b) ==> rgba_decoded(bytes@) == Some(b@),
{
    match decode_rgba(bytes) {
        Err(e) => Err(e),
        Ok((w, h, data)) => match PixelBuffer::from_raw(w, h, data) {
            Some(b) => Ok(b),
            None => Err(String::from_str("Decoded image has an inconsistent size")),
        },
    }
}

/// The PNG file (8-bit RGBA) that the png crate writes for an image, or
/// `None` where it reports an error.
pub uninterp spec fn png_encoded(width: u32, height: u32, data: Seq<u8>) -> Option<Seq<u8>>;

/// The JPEG file (RGBA input) that the jpeg-encoder crate writes for an
/// image at a quality, or `None` where it reports an error.
pub uninterp spec fn jpeg_encoded(quality: u8, width: u16, height: u16, data: Seq<u8>) -> Option<
    Seq<u8>,
>;

/// The step of PNG writing that failed, with the encoder's reason.
pub enum PngFailure {
    Header(String),
    Data(String),
}

/// Relies on png::Encoder (color RGBA, depth 8), Encoder::write_header,
/// Writer::write_image_data and Writer::finish, writing into memory. With
/// data of the right length the only refusal is a zero width or height
/// (checked when the header is written); a `Vec` sink never fails.
#[verifier::external_body]
fn encode_png(width: u32, height: u32, data: &[u8]) -> (r: Result<Vec<u8>, PngFailure>)
    requires
        rgba_len_ok(width, height, data@.len()),
    ensures
        r is Ok <==> png_encoded(width, height, data@) is Some,
        r is Ok <==> (width > 0 && height > 0),
        r matches Ok(b) ==> png_encoded(width, height, data@) == Some(b@),
{
    let mut out: Vec<u8> = Vec::new();
    let mut encoder = png::Encoder::new(&mut out, width, height);
    encoder.set_color(png::ColorType::Rgba);
    encoder.set_depth(png::BitDepth::Eight);
    let mut writer = encoder.write_header().map_err(|e| PngFailure::Header(e.to_string()))?;
    writer.write_image_data(data).map_err(|e| PngFailure::Data(e.to_string()))?;
    writer.finish().map_err(|e| PngFailure::Data(e.to_string()))?;
    Ok(out)
}

/// Relies on jpeg_encoder::Encoder::new (quality clamped to 1..=100) and
/// Encoder::encode with ColorType::Rgba, writing into memory. With data of
/// the right length the only refusal is a zero width or height.
#[verifier::external_body]
fn encode_jpeg(quality: u8, width: u16, height: u16, data: &[u8]) -> (r: Result<Vec<u8>, String>)
    requires
        data@.len() == 4 * (width as nat) * (height as nat),
    ensures
        r is Ok <==> jpeg_encoded(quality, width, height, data@) is Some,
        r is Ok <==> (width > 0 && height > 0),
        r matches Ok(b) ==> jpeg_encoded(quality, width, height, data@) == Some(b@),
{
    let mut out: Vec<u8> = Vec::new();
    let encoder = jpeg_encoder::Encoder::new(&mut out, quality);
    encoder.encode(data, width, height, jpeg_encoder::ColorType::Rgba).map_err(|e| e.to_string())?;
    Ok(out)
}

/// The quality at which JPEG files are written.
pub const JPEG_QUALITY: u8 = 100;

/// The file formats a wallpaper can be saved in.
#[derive(Clone, Copy, Debug, PartialEq, Eq, Structural)]
pub enum SaveFormat {
    Png,
    Jpeg,
}

pub open spec fn ends_with(s: Seq<char>, t: Seq<char>) -> bool {
    s.len() >= t.len() && s.subrange(s.len() - t.len(), s.len() as int) == t
}

/// The format that a path's exact, case-sensitive suffix selects.
pub open spec fn format_of(path: Seq<char>) -> Option<SaveFormat> {
    if ends_with(path, ".png"@) {
        Some(SaveFormat::Png)
    } else if ends_with(path, ".jpg"@) || ends_with(path, ".jpeg"@) {
        Some(SaveFormat::Jpeg)
    } else {
        None
    }
}

pub fn str_ends_with(s: &str, t: &str) -> (r: bool)
    ensures
        r == ends_with(s@, t@),
{
    let n = s.unicode_len();
    let m = t.unicode_len();
    if m > n {
        return false;
    }
    let off = n - m;
    let mut i: usize = 0;
    while i < m
        invariant
            i <= m,
            m == t@.len(),
            n == s@.len(),
            off == n - m,
            forall|j: int| 0 <= j < i ==> s@[off + j] == t@[j],
        decreases m - i,
    {
        if s.get_char(off + i) != t.get_char(i) {
            proof {
                assert(s@.subrange(off as int, n as int)[i as int] != t@[i as int]);
            }
            return false;
        }
        i = i + 1;
    }
    proof {
        assert(s@.subrange(off as int, n as int) =~= t@);
    }
    true
}

/// Picks the encoder from the path's extension.
pub fn save_format(path: &str) -> (r: Option<SaveFormat>)
    ensures
        r == format_of(path@),
{
    if str_ends_with(path, ".png") {
        Some(SaveFormat::Png)
    } else if str_ends_with(path, ".jpg") || str_ends_with(path, ".jpeg") {
        Some(SaveFormat::Jpeg)
    } else {
        None
    }
}

/// What encoding `image` for `path` gives: the file's bytes, or `None`
/// where the encoder fails or the image is too large for JPEG.
pub open spec fn encoding_for(image: (u32, u32, Seq<u8>), format: SaveFormat) -> Option<Seq<u8>> {
    match format {
        SaveFormat::Png => png_encoded(image.0, image.1, image.2),
        SaveFormat::Jpeg => if image.0 <= u16::MAX && image.1 <= u16::MAX {
            jpeg_encoded(JPEG_QUALITY, image.0 as u16, image.1 as u16, image.2)
        } else {
            None
        },
    }
}

pub open spec fn starts_with(s: Seq<char>, t: Seq<char>) -> bool {
    s.len() >= t.len() && s.take(t.len() as int) == t
}

/// The messages of an encoder that refused an image.
pub open spec fn is_encoder_failure(e: Seq<char>) -> bool {
    starts_with(e, "Failed to write PNG header: "@) || starts_with(e, "Failed to write image data: "@)
        || starts_with(e, "Failed to encode JPEG image: "@)
}

fn prefixed(head: &str, reason: &str) -> (r: String)
    ensures
        r@ == head@ + reason@,
{
    let mut m = String::from_str(head);
    m.append(reason);
    m
}

/// Encodes `image` in the format that the extension of `path` selects
/// (`.png`, or `.jpg` / `.jpeg` at quality 100); any other extension is
/// refused. PNG needs a non-zero size; JPEG a size of 1 to 65535 each way.
pub fn encode_wallpaper(image: &PixelBuffer, path: &str) -> (r: Result<Vec<u8>, String>)
    ensures
        format_of(path@) is None ==> (r matches Err(e) && e@ == "Unsupported file extension: "@
            + path@),
        format_of(path@) matches Some(f) ==> (r is Ok <==> encoding_for(image@, f) is Some),
        format_of(path@) == Some(SaveFormat::Png) ==> (r is Ok <==> (image@.0 > 0 && image@.1
            > 0)),
        format_of(path@) == Some(SaveFormat::Jpeg) ==> (r is Ok <==> (1 <= image@.0 <= 65535 && 1
            <= image@.1 <= 65535)),
        r matches Ok(b) ==> (format_of(path@) matches Some(f) && encoding_for(image@, f) == Some(
            b@,
        )),
        format_of(path@) is Some ==> (r matches Err(e) ==> is_encoder_failure(e@)),
        r matches Err(e) ==> (format_of(path@) is None <==> e@ == "Unsupported file extension: "@
            + path@),
{
    proof {
        reveal_strlit("Unsupported file extension: ");
        reveal_strlit("Failed to write PNG header: ");
        reveal_strlit("Failed to write image data: ");
        reveal_strlit("Failed to encode JPEG image: ");
        assert(("Unsupported file extension: "@ + path@)[0] == 'U');
    }
    match save_format(path) {
        None => Err(prefixed("Unsupported file extension: ", path)),
        Some(SaveFormat::Png) => match encode_png(
            image.width(),
            image.height(),
            image.as_raw().as_slice(),
        ) {
            Ok(b) => Ok(b),
            Err(PngFailure::Header(e)) => {
                let m = prefixed("Failed to write PNG header: ", e.as_str());
                assert(m@.take(28) =~= "Failed to write PNG header: "@);
                assert(m@[0] == 'F');
                Err(m)
            },
            Err(PngFailure::Data(e)) => {
                let m = prefixed("Failed to write image data: ", e.as_str());
                assert(m@.take(28) =~= "Failed to write image data: "@);
                assert(m@[0] == 'F');
                Err(m)
            },
        },
        Some(SaveFormat::Jpeg) => {
            let w = image.width();
            let h = image.height();
            let m = if w > 65535 || h > 65535 {
                prefixed("Failed to encode JPEG image: ", "dimensions exceed 65535")
            } else {
                match encode_jpeg(JPEG_QUALITY, w as u16, h as u16, image.as_raw().as_slice()) {
                    Ok(b) => {
                        return Ok(b);
                    },
                    Err(e) => prefixed("Failed to encode JPEG image: ", e.as_str()),
                }
            };
            assert(m@.take(29) =~= "Failed to encode JPEG image: "@);
            assert(m@[0] == 'F');
            Err(m)
        },
    }
}

} // verus!
