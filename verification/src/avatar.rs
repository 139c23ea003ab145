//! Avatar pixels for the interface, plus the initials disc every member
//! without one falls back to.
//!
//! Decoding happens once per content hash. The caps mirror the transfer
//! layer's, so bytes that could never reach a peer are refused with the same
//! numbers here.
//!
//! A picture the musician picks off their own disk goes through [`load`]: a
//! phone photo is 3 MB and 4000 px across, so it is cropped to a square, scaled
//! to [`FIT_DIM`], and re-encoded before [`decode`] sees it. The caps are
//! unchanged and still the last word; they are simply met by construction.
//!
//! Reading and writing PNG and JPEG is the `image` crate's, and hexadecimal is
//! `data_encoding`'s. What a decoder makes of the pixels may differ in the last
//! bit between processors, so those results are tied to what they come of by a
//! relation and not by a function.

use std::sync::Arc;

use image::ImageDecoder;
use vstd::prelude::*;

use crate::model::AvatarModel;
use crate::runtime::{copy_bytes, AvatarHandle};
use crate::text::{
    chars_of, decimal, digit, hex_fixed, is_white_space, push_decimal, push_hex_fixed, white_space,
};

verus! {

/// Encoded size cap: the transfer layer's, so a file the session would refuse
/// is refused here with the same number, before any decoding.
pub const MAX_BYTES: usize = 262_144;
/// Decoded dimension cap per axis. Checked from the header before the full
/// decode so a small file cannot decompress into a huge allocation.
pub const MAX_DIM: u32 = 1024;
/// The square [`fit`] fits a picked picture into. It covers the largest disc
/// that is drawn anywhere, leaves room for a 3x display, and re-encodes to
/// about a tenth of the byte cap.
pub const FIT_DIM: u32 = 256;
/// Quality for the re-encode. Higher than usual because there is byte budget
/// to spare and the result is scaled down again when drawn.
pub const JPEG_QUALITY: u8 = 90;
/// Source pixels [`fit`] will decode: the ceiling on what a decompression bomb
/// can ask for.
pub const MAX_SOURCE_PIXELS: u64 = 100_000_000;
/// What decoding a picked picture may allocate: four bytes a pixel.
pub const SOURCE_ALLOC: u64 = 400_000_000;
/// What decoding an avatar may allocate: 16 bits a channel at the dimension
/// cap.
pub const AVATAR_ALLOC: u64 = 8_388_608;

/// Why an avatar did not become pixels. Every variant carries the specific
/// number or reason, because "invalid image" tells the user nothing.
#[derive(Debug, PartialEq, Eq)]
pub enum AvatarError {
    Empty,
    TooManyBytes(usize),
    /// The bytes are some other format, or not an image at all.
    NotPngOrJpeg,
    TooLarge { width: u32, height: u32 },
    /// Past what the fitter will decode at all, so it is refused from the
    /// header rather than allocated for.
    TooManyPixels { width: u32, height: u32 },
    /// Header said PNG or JPEG, the pixels disagreed.
    Decode(String),
    /// The fitted pixels would not re-encode.
    Encode(String),
}

#[verifier::ext_equal]
pub enum AvatarErrorModel {
    Empty,
    TooManyBytes(usize),
    NotPngOrJpeg,
    TooLarge { width: u32, height: u32 },
    TooManyPixels { width: u32, height: u32 },
    Decode(Seq<char>),
    Encode(Seq<char>),
}

impl DeepView for AvatarError {
    type V = AvatarErrorModel;

    open spec fn deep_view(&self) -> AvatarErrorModel {
        match self {
            AvatarError::Empty => AvatarErrorModel::Empty,
            AvatarError::TooManyBytes(n) => AvatarErrorModel::TooManyBytes(*n),
            AvatarError::NotPngOrJpeg => AvatarErrorModel::NotPngOrJpeg,
            AvatarError::TooLarge { width, height } => AvatarErrorModel::TooLarge {
                width: *width,
                height: *height,
            },
            AvatarError::TooManyPixels { width, height } => AvatarErrorModel::TooManyPixels {
                width: *width,
                height: *height,
            },
            AvatarError::Decode(reason) => AvatarErrorModel::Decode(reason@),
            AvatarError::Encode(reason) => AvatarErrorModel::Encode(reason@),
        }
    }
}

impl AvatarErrorModel {
    /// What the refusal reads as.
    pub open spec fn text(self) -> Seq<char> {
        match self {
            AvatarErrorModel::Empty => "the file is empty"@,
            AvatarErrorModel::TooManyBytes(n) => "the image is "@ + decimal(
                (n as nat + 1023) / 1024,
            ) + " KB; the limit is "@ + decimal(MAX_BYTES as nat / 1024) + " KB"@,
            AvatarErrorModel::NotPngOrJpeg => "only PNG and JPEG images are supported"@,
            AvatarErrorModel::TooLarge { width, height } => "the image is "@ + decimal(
                width as nat,
            ) + "x"@ + decimal(height as nat) + "; the limit is "@ + decimal(MAX_DIM as nat)
                + "x"@ + decimal(MAX_DIM as nat),
            AvatarErrorModel::TooManyPixels { width, height } => "the image is "@ + decimal(
                width as nat,
            ) + "x"@ + decimal(height as nat) + "; the limit is "@ + decimal(
                MAX_SOURCE_PIXELS as nat / 1_000_000,
            ) + " megapixels"@,
            AvatarErrorModel::Decode(reason) => "the image did not decode: "@ + reason,
            AvatarErrorModel::Encode(reason) => "the image did not re-encode: "@ + reason,
        }
    }
}

impl AvatarError {
    /// What the refusal reads as.
    pub fn message(&self) -> (s: String)
        ensures
            s@ == self.deep_view().text(),
            match self {
                AvatarError::Empty => s@ == "the file is empty"@,
                AvatarError::TooManyBytes(n) => s@ == "the image is "@ + decimal(
                    (*n as nat + 1023) / 1024,
                ) + " KB; the limit is "@ + decimal(256) + " KB"@,
                AvatarError::NotPngOrJpeg => s@ == "only PNG and JPEG images are supported"@,
                AvatarError::TooLarge { width, height } => s@ == "the image is "@ + decimal(
                    *width as nat,
                ) + "x"@ + decimal(*height as nat) + "; the limit is "@ + decimal(1024) + "x"@
                    + decimal(1024),
                AvatarError::TooManyPixels { width, height } => s@ == "the image is "@ + decimal(
                    *width as nat,
                ) + "x"@ + decimal(*height as nat) + "; the limit is "@ + decimal(100)
                    + " megapixels"@,
                AvatarError::Decode(reason) => s@ == "the image did not decode: "@ + reason@,
                AvatarError::Encode(reason) => s@ == "the image did not re-encode: "@ + reason@,
            },
    {
        let mut s = String::new();
        match self {
            AvatarError::Empty => s.append("the file is empty"),
            AvatarError::TooManyBytes(n) => {
                let bytes: u64 = *n as u64;
                let kb: u64 = if bytes % 1024 == 0 {
                    bytes / 1024
                } else {
                    bytes / 1024 + 1
                };
                s.append("the image is ");
                push_decimal(&mut s, kb);
                s.append(" KB; the limit is ");
                push_decimal(&mut s, (MAX_BYTES / 1024) as u64);
                s.append(" KB");
            },
            AvatarError::NotPngOrJpeg => s.append("only PNG and JPEG images are supported"),
            AvatarError::TooLarge { width, height } => {
                s.append("the image is ");
                push_decimal(&mut s, *width as u64);
                s.append("x");
                push_decimal(&mut s, *height as u64);
                s.append("; the limit is ");
                push_decimal(&mut s, MAX_DIM as u64);
                s.append("x");
                push_decimal(&mut s, MAX_DIM as u64);
            },
            AvatarError::TooManyPixels { width, height } => {
                s.append("the image is ");
                push_decimal(&mut s, *width as u64);
                s.append("x");
                push_decimal(&mut s, *height as u64);
                s.append("; the limit is ");
                push_decimal(&mut s, MAX_SOURCE_PIXELS / 1_000_000);
                s.append(" megapixels");
            },
            AvatarError::Decode(reason) => {
                s.append("the image did not decode: ");
                s.append(reason.as_str());
            },
            AvatarError::Encode(reason) => {
                s.append("the image did not re-encode: ");
                s.append(reason.as_str());
            },
        }
        assert(s@ =~= self.deep_view().text());
        s
    }
}

impl Clone for AvatarError {
    fn clone(&self) -> (r: AvatarError)
        ensures
            r == *self,
    {
        match self {
            AvatarError::Empty => AvatarError::Empty,
            AvatarError::TooManyBytes(n) => AvatarError::TooManyBytes(*n),
            AvatarError::NotPngOrJpeg => AvatarError::NotPngOrJpeg,
            AvatarError::TooLarge { width, height } => AvatarError::TooLarge {
                width: *width,
                height: *height,
            },
            AvatarError::TooManyPixels { width, height } => AvatarError::TooManyPixels {
                width: *width,
                height: *height,
            },
            AvatarError::Decode(reason) => AvatarError::Decode(reason.clone()),
            AvatarError::Encode(reason) => AvatarError::Encode(reason.clone()),
        }
    }
}

/// A picture chosen off disk, fitted and decoded: everything the settings row
/// needs to show it and the session needs to send it.
#[derive(Debug, PartialEq)]
pub struct Picture {
    /// The file's own name, so the row can name what was picked.
    pub file: String,
    /// Pixels the file held, for the line that says what happened to it.
    pub source: (u32, u32),
    /// Pixels the fitted image holds.
    pub fitted: (u32, u32),
    /// The fitted encoding; what a join announces and a peer decodes.
    pub bytes: Vec<u8>,
    pub handle: AvatarHandle,
}

/// A picture cut down to the size the app and the stream card draw.
#[derive(Debug, PartialEq, Eq)]
pub struct Fitted {
    pub bytes: Vec<u8>,
    pub source: (u32, u32),
    pub fitted: (u32, u32),
}

#[verifier::ext_equal]
pub struct FittedModel {
    pub bytes: Seq<u8>,
    pub source: (u32, u32),
    pub fitted: (u32, u32),
}

impl DeepView for Fitted {
    type V = FittedModel;

    open spec fn deep_view(&self) -> FittedModel {
        FittedModel { bytes: self.bytes@, source: self.source, fitted: self.fitted }
    }
}

impl Clone for Fitted {
    fn clone(&self) -> (r: Fitted)
        ensures
            r.deep_view() == self.deep_view(),
    {
        Fitted { bytes: copy_bytes(&self.bytes), source: self.source, fitted: self.fitted }
    }
}

/// What a fallible step came to, with text and pixels as sequences.
pub open spec fn outcome<T: DeepView, E: DeepView>(r: Result<T, E>) -> Result<T::V, E::V> {
    match r {
        Ok(t) => Ok(t.deep_view()),
        Err(e) => Err(e.deep_view()),
    }
}

// ----------------------------------------------------------- the image crate

/// The two formats that travel, and everything else.
#[derive(Debug, Clone, Copy, PartialEq, Eq, Structural)]
pub enum PictureFormat {
    Png,
    Jpeg,
    Other,
}

/// The bytes a PNG file begins with.
pub open spec fn png_signature() -> Seq<u8> {
    seq![0x89u8, 0x50, 0x4e, 0x47, 0x0d, 0x0a, 0x1a, 0x0a]
}

/// The bytes a JPEG file begins with.
pub open spec fn jpeg_signature() -> Seq<u8> {
    seq![0xffu8, 0xd8, 0xff]
}

/// The format a file's first bytes announce.
pub open spec fn format_of(bytes: Seq<u8>) -> PictureFormat {
    if png_signature().is_prefix_of(bytes) {
        PictureFormat::Png
    } else if jpeg_signature().is_prefix_of(bytes) {
        PictureFormat::Jpeg
    } else {
        PictureFormat::Other
    }
}

/// `image::guess_format` goes by the first bytes alone: the eight of the PNG
/// signature are PNG, the three of the JPEG one are JPEG, and whatever else it
/// recognises or does not is neither.
#[verifier::external_body]
fn guess_format(bytes: &[u8]) -> (format: PictureFormat)
    ensures
        format == format_of(bytes@),
{
    match image::guess_format(bytes) {
        Ok(image::ImageFormat::Png) => PictureFormat::Png,
        Ok(image::ImageFormat::Jpeg) => PictureFormat::Jpeg,
        _ => PictureFormat::Other,
    }
}

/// What a picture's header says: its size, and how many bytes its pixels take
/// in the layout they are stored in.
#[derive(Debug, Clone, Copy, PartialEq, Eq, Structural)]
pub struct Header {
    pub width: u32,
    pub height: u32,
    pub total_bytes: u64,
}

/// How a picture is scaled.
#[derive(Debug, Clone, Copy, PartialEq, Eq, Structural)]
pub enum Scaling {
    /// A Lanczos window of three lobes.
    Lanczos3,
}

/// What the `image` crate reads off the header of a PNG or JPEG file while it
/// may allocate `max_alloc` bytes, or why it does not.
pub uninterp spec fn header_of(bytes: Seq<u8>, max_alloc: u64) -> Result<Header, Seq<char>>;

/// Whether the `image` crate may give these pixels for a PNG or JPEG file while
/// it may allocate `max_alloc` bytes, or refuse it in these words. The decoders
/// use what the processor offers, so two machines may differ.
pub uninterp spec fn pixels_may_be(
    bytes: Seq<u8>,
    max_alloc: u64,
    pixels: Result<Seq<u8>, Seq<char>>,
) -> bool;

/// Whether the `image` crate may give these pixels for the centred square of
/// such a file scaled to `side`, or refuse it in these words. Scaling goes
/// through the platform's sine, so two machines may differ.
pub uninterp spec fn square_may_be(
    bytes: Seq<u8>,
    max_alloc: u64,
    side: u32,
    scaling: Scaling,
    pixels: Result<Seq<u8>, Seq<char>>,
) -> bool;

/// Whether every reading of a file's header gives this size, whatever it may
/// allocate.
pub open spec fn measures(bytes: Seq<u8>, size: (u32, u32)) -> bool {
    forall|max_alloc: u64|
        (#[trigger] header_of(bytes, max_alloc)) matches Ok(header) ==> (
        header.width,
        header.height,
    ) == size
}

/// Whether a file's header reads as a square of `side`, of so many bytes a
/// pixel, wherever a row of four bytes a pixel may be allocated.
pub open spec fn reads_as_square(bytes: Seq<u8>, side: u32, per_pixel: int) -> bool {
    forall|max_alloc: u64|
        4 * side <= max_alloc ==> #[trigger] header_of(bytes, max_alloc) == Ok::<Header, Seq<char>>(
            Header {
                width: side,
                height: side,
                total_bytes: (per_pixel * side * side) as u64,
            },
        )
}

/// Whether every reading of a file's pixels gives some, wherever a row of four
/// bytes a pixel may be allocated.
pub open spec fn decodes(bytes: Seq<u8>, side: u32) -> bool {
    forall|max_alloc: u64, pixels: Result<Seq<u8>, Seq<char>>|
        4 * side <= max_alloc && #[trigger] pixels_may_be(bytes, max_alloc, pixels) ==> pixels is Ok
}

/// Whether those are always these pixels.
pub open spec fn decodes_into(bytes: Seq<u8>, side: u32, rgba: Seq<u8>) -> bool {
    forall|max_alloc: u64, pixels: Result<Seq<u8>, Seq<char>>|
        4 * side <= max_alloc && #[trigger] pixels_may_be(bytes, max_alloc, pixels) ==> pixels
            == Ok::<Seq<u8>, Seq<char>>(rgba)
}

/// A square of RGBA pixels as a PNG file.
pub uninterp spec fn png_of(side: u32, rgba: Seq<u8>) -> Result<Seq<u8>, Seq<char>>;

/// A square of RGB pixels as a JPEG file.
pub uninterp spec fn jpeg_of(side: u32, rgb: Seq<u8>, quality: u8) -> Result<Seq<u8>, Seq<char>>;

/// `image::ImageReader` over the bytes, the format guessed from them and the
/// allocation limit set, turned into a decoder, and the size and byte count
/// that decoder gives. The result depends on the two arguments alone, and the
/// size on the bytes alone: the limit decides whether the header is read, not
/// what it says.
#[verifier::external_body]
fn read_header(bytes: &[u8], max_alloc: u64) -> (header: Result<Header, String>)
    requires
        format_of(bytes@) !is Other,
    ensures
        header_of(bytes@, max_alloc) == (match header {
            Ok(header) => Ok(header),
            Err(reason) => Err(reason@),
        }),
        header matches Ok(header) ==> measures(bytes@, (header.width, header.height)),
{
    let mut reader = image::ImageReader::new(std::io::Cursor::new(bytes))
        .with_guessed_format()
        .map_err(|err| err.to_string())?;
    let mut limits = image::Limits::no_limits();
    limits.max_alloc = Some(max_alloc);
    reader.limits(limits);
    let decoder = reader.into_decoder().map_err(|err| err.to_string())?;
    let (width, height) = decoder.dimensions();
    Ok(Header { width, height, total_bytes: decoder.total_bytes() })
}

/// `image::DynamicImage::from_decoder` on the decoder of [`read_header`], and
/// its pixels as `to_rgba8` lays them out: four bytes for each pixel of the
/// size that the header gives.
#[verifier::external_body]
fn read_pixels(bytes: &[u8], max_alloc: u64) -> (pixels: Result<Vec<u8>, String>)
    requires
        format_of(bytes@) !is Other,
    ensures
        pixels_may_be(
            bytes@,
            max_alloc,
            match pixels {
                Ok(pixels) => Ok(pixels@),
                Err(reason) => Err(reason@),
            },
        ),
        pixels matches Ok(pixels) ==> (header_of(bytes@, max_alloc) matches Ok(header)
            && pixels@.len() == 4 * header.width * header.height),
{
    let mut reader = image::ImageReader::new(std::io::Cursor::new(bytes))
        .with_guessed_format()
        .map_err(|err| err.to_string())?;
    let mut limits = image::Limits::no_limits();
    limits.max_alloc = Some(max_alloc);
    reader.limits(limits);
    let decoder = reader.into_decoder().map_err(|err| err.to_string())?;
    let image = image::DynamicImage::from_decoder(decoder).map_err(|err| err.to_string())?;
    Ok(image.to_rgba8().into_raw())
}

/// The image of [`read_pixels`] put through `resize_to_fill`, which scales it
/// with the filter named to cover a square of `side` and crops it to the
/// middle, and the pixels of that as `to_rgba8` lays them out. An image with
/// an empty side cannot be scaled.
#[verifier::external_body]
fn read_square(bytes: &[u8], max_alloc: u64, side: u32, scaling: Scaling) -> (pixels: Result<
    Vec<u8>,
    String,
>)
    requires
        format_of(bytes@) !is Other,
        header_of(bytes@, max_alloc) matches Ok(header) && header.width > 0 && header.height > 0,
        side > 0,
    ensures
        square_may_be(
            bytes@,
            max_alloc,
            side,
            scaling,
            match pixels {
                Ok(pixels) => Ok(pixels@),
                Err(reason) => Err(reason@),
            },
        ),
        pixels matches Ok(pixels) ==> pixels@.len() == 4 * side * side,
{
    let mut reader = image::ImageReader::new(std::io::Cursor::new(bytes))
        .with_guessed_format()
        .map_err(|err| err.to_string())?;
    let mut limits = image::Limits::no_limits();
    limits.max_alloc = Some(max_alloc);
    reader.limits(limits);
    let decoder = reader.into_decoder().map_err(|err| err.to_string())?;
    let image = image::DynamicImage::from_decoder(decoder).map_err(|err| err.to_string())?;
    let filter = match scaling { Scaling::Lanczos3 => image::imageops::FilterType::Lanczos3 };
    let square = image.resize_to_fill(side, side, filter);
    Ok(square.to_rgba8().into_raw())
}

/// `image::Limits::reserve` lets an amount through while it is within the
/// limit, and is out of memory past it.
#[verifier::external_body]
fn reserve(max_alloc: u64, amount: u64) -> (r: Result<(), String>)
    ensures
        r is Ok <==> amount <= max_alloc,
        r matches Err(reason) ==> reason@ == "Memory limit exceeded"@,
{
    let mut limits = image::Limits::no_limits();
    limits.max_alloc = Some(max_alloc);
    limits.reserve(amount).map_err(|err| err.to_string())
}

/// `image::DynamicImage::write_to` as PNG, over the pixels given. An empty
/// square is refused. The file begins with the PNG signature, its header gives
/// the side and four bytes a pixel, and reading it back, with room for a row of
/// it, gives the pixels it was written from: PNG loses nothing.
#[verifier::external_body]
fn write_png(side: u32, rgba: Vec<u8>) -> (file: Result<Vec<u8>, String>)
    requires
        rgba@.len() == 4 * side * side,
    ensures
        png_of(side, rgba@) == (match file {
            Ok(file) => Ok(file@),
            Err(reason) => Err(reason@),
        }),
        file matches Ok(file) ==> side > 0 && png_signature().is_prefix_of(file@),
        file matches Ok(file) ==> measures(file@, (side, side)) && reads_as_square(file@, side, 4),
        file matches Ok(file) ==> decodes(file@, side) && decodes_into(file@, side, rgba@),
{
    let pixels = image::RgbaImage::from_raw(side, side, rgba).expect("four bytes a pixel");
    let mut out = std::io::Cursor::new(Vec::new());
    image::DynamicImage::ImageRgba8(pixels)
        .write_to(&mut out, image::ImageFormat::Png)
        .map_err(|err| err.to_string())?;
    Ok(out.into_inner())
}

/// `image::codecs::jpeg::JpegEncoder::encode_image` at the quality given, over
/// the pixels given. An empty square is refused. The file begins with the start
/// marker of JPEG and the marker after it, its header gives the side and three
/// bytes a pixel, and its pixels are read without an error. Which pixels those
/// are is left unsaid: JPEG keeps them only roughly.
#[verifier::external_body]
fn write_jpeg(side: u32, rgb: Vec<u8>, quality: u8) -> (file: Result<Vec<u8>, String>)
    requires
        rgb@.len() == 3 * side * side,
    ensures
        jpeg_of(side, rgb@, quality) == (match file {
            Ok(file) => Ok(file@),
            Err(reason) => Err(reason@),
        }),
        file matches Ok(file) ==> side > 0 && jpeg_signature().is_prefix_of(file@),
        file matches Ok(file) ==> measures(file@, (side, side)) && reads_as_square(file@, side, 3),
        file matches Ok(file) ==> decodes(file@, side),
{
    let pixels = image::RgbImage::from_raw(side, side, rgb).expect("three bytes a pixel");
    let mut out = Vec::new();
    image::codecs::jpeg::JpegEncoder::new_with_quality(&mut out, quality)
        .encode_image(&pixels)
        .map_err(|err| err.to_string())?;
    Ok(out)
}

// ----------------------------------------------------------------- decoding

/// Why bytes are refused before their pixels are read, if they are.
pub open spec fn decode_refusal(bytes: Seq<u8>) -> Option<AvatarErrorModel> {
    if bytes.len() == 0 {
        Some(AvatarErrorModel::Empty)
    } else if bytes.len() > MAX_BYTES {
        Some(AvatarErrorModel::TooManyBytes(bytes.len() as usize))
    } else if format_of(bytes) is Other {
        Some(AvatarErrorModel::NotPngOrJpeg)
    } else {
        match header_of(bytes, AVATAR_ALLOC) {
            Err(reason) => Some(AvatarErrorModel::Decode(reason)),
            Ok(header) => if header.width == 0 || header.height == 0 || header.width > MAX_DIM
                || header.height > MAX_DIM {
                Some(AvatarErrorModel::TooLarge { width: header.width, height: header.height })
            } else if header.total_bytes > AVATAR_ALLOC {
                Some(AvatarErrorModel::Decode("Memory limit exceeded"@))
            } else {
                None
            },
        }
    }
}

/// What the pixels of an accepted file make of it: a handle under the hash it
/// came under, of the size its header gave, or the decoder's refusal.
pub open spec fn handle_from(
    hash: Seq<char>,
    header: Header,
    pixels: Result<Seq<u8>, Seq<char>>,
) -> Result<AvatarModel, AvatarErrorModel> {
    match pixels {
        Ok(rgba) => Ok(
            AvatarModel { hash, width: header.width, height: header.height, rgba },
        ),
        Err(reason) => Err(AvatarErrorModel::Decode(reason)),
    }
}

/// What decoding may come to.
pub open spec fn decode_may_be(
    hash: Seq<char>,
    bytes: Seq<u8>,
    result: Result<AvatarModel, AvatarErrorModel>,
) -> bool {
    match decode_refusal(bytes) {
        Some(refusal) => result == Err::<AvatarModel, AvatarErrorModel>(refusal),
        None => exists|pixels: Result<Seq<u8>, Seq<char>>| #[trigger]
            pixels_may_be(bytes, AVATAR_ALLOC, pixels) && result == handle_from(
                hash,
                header_of(bytes, AVATAR_ALLOC)->Ok_0,
                pixels,
            ),
    }
}

/// The handle of an accepted file, once its pixels have been read.
pub fn handle_of(hash: String, header: Header, pixels: Result<Vec<u8>, String>) -> (r: Result<
    AvatarHandle,
    AvatarError,
>)
    ensures
        outcome(r) == handle_from(
            hash@,
            header,
            match pixels {
                Ok(pixels) => Ok(pixels@),
                Err(reason) => Err(reason@),
            },
        ),
{
    match pixels {
        Ok(pixels) => Ok(
            AvatarHandle {
                hash,
                width: header.width,
                height: header.height,
                rgba: Arc::new(pixels),
            },
        ),
        Err(reason) => Err(AvatarError::Decode(reason)),
    }
}

/// Decodes PNG or JPEG bytes to straight (non-premultiplied) RGBA. `hash` is
/// the content hash the bytes arrived under and becomes the handle's key.
pub fn decode(hash: String, bytes: &[u8]) -> (r: Result<AvatarHandle, AvatarError>)
    ensures
        decode_may_be(hash@, bytes@, outcome(r)),
        r matches Ok(handle) ==> (*handle.rgba)@.len() == 4 * handle.width * handle.height,
{
    if bytes.len() == 0 {
        return Err(AvatarError::Empty);
    }
    if bytes.len() > MAX_BYTES {
        return Err(AvatarError::TooManyBytes(bytes.len()));
    }
    if let PictureFormat::Other = guess_format(bytes) {
        return Err(AvatarError::NotPngOrJpeg);
    }
    let header = match read_header(bytes, AVATAR_ALLOC) {
        Ok(header) => header,
        Err(reason) => {
            return Err(AvatarError::Decode(reason));
        },
    };
    if header.width == 0 || header.height == 0 || header.width > MAX_DIM || header.height
        > MAX_DIM {
        return Err(AvatarError::TooLarge { width: header.width, height: header.height });
    }
    if let Err(reason) = reserve(AVATAR_ALLOC, header.total_bytes) {
        return Err(AvatarError::Decode(reason));
    }
    let pixels = read_pixels(bytes, AVATAR_ALLOC);
    handle_of(hash, header, pixels)
}

/// A handle that decoding gives is inside the caps, and its bytes were: a
/// picture somebody is shown is never past the size that may be drawn.
pub proof fn what_decodes_is_inside_the_caps(
    hash: Seq<char>,
    bytes: Seq<u8>,
    handle: AvatarModel,
)
    requires
        decode_may_be(hash, bytes, Ok::<AvatarModel, AvatarErrorModel>(handle)),
    ensures
        0 < bytes.len() <= MAX_BYTES,
        0 < handle.width <= MAX_DIM,
        0 < handle.height <= MAX_DIM,
        handle.hash == hash,
{
}

// ------------------------------------------------------------------ fitting

/// Why a picked picture is refused from its header, if it is.
pub open spec fn fit_refusal(bytes: Seq<u8>) -> Option<AvatarErrorModel> {
    if bytes.len() == 0 {
        Some(AvatarErrorModel::Empty)
    } else if format_of(bytes) is Other {
        Some(AvatarErrorModel::NotPngOrJpeg)
    } else {
        match header_of(bytes, SOURCE_ALLOC) {
            Err(reason) => Some(AvatarErrorModel::Decode(reason)),
            Ok(header) => if header.width == 0 || header.height == 0 {
                Some(AvatarErrorModel::TooLarge { width: header.width, height: header.height })
            } else if header.width * header.height > MAX_SOURCE_PIXELS {
                Some(
                    AvatarErrorModel::TooManyPixels { width: header.width, height: header.height },
                )
            } else {
                None
            },
        }
    }
}

/// Already at drawing size and under the cap.
pub open spec fn fits_as_it_is(bytes: Seq<u8>, header: Header) -> bool {
    header.width <= FIT_DIM && header.height <= FIT_DIM && bytes.len() <= MAX_BYTES
}

/// The side of the square a picture is cut to: the drawing size, or its own
/// shorter side where that is less. Nothing is ever scaled up.
pub open spec fn target_side(header: Header) -> u32 {
    let shorter = if header.width <= header.height {
        header.width
    } else {
        header.height
    };
    if shorter < FIT_DIM {
        shorter
    } else {
        FIT_DIM
    }
}

/// The side of the one retry: half of it, and at least a pixel.
pub open spec fn retry_side(side: u32) -> u32 {
    if side / 2 < 1 {
        1
    } else {
        (side / 2) as u32
    }
}

/// Whether any pixel lets something through.
pub open spec fn any_clear(rgba: Seq<u8>) -> bool {
    exists|i: int| 0 <= i < rgba.len() / 4 && #[trigger] rgba[4 * i + 3] < 255
}

/// The pixels without their alpha.
pub open spec fn opaque_of(rgba: Seq<u8>) -> Seq<u8> {
    Seq::new((rgba.len() / 4) * 3, |k: int| rgba[4 * (k / 3) + k % 3])
}

/// The file a square of pixels becomes. Transparency keeps PNG; anything
/// opaque, which is every photograph, goes to JPEG, where the same pixels cost
/// a fifth of the bytes.
pub open spec fn encoded(rgba: Seq<u8>, side: u32) -> Result<Seq<u8>, AvatarErrorModel> {
    match if any_clear(rgba) {
        png_of(side, rgba)
    } else {
        jpeg_of(side, opaque_of(rgba), JPEG_QUALITY)
    } {
        Ok(file) => Ok(file),
        Err(reason) => Err(AvatarErrorModel::Encode(reason)),
    }
}

/// What the file made of a square of pixels is read as again: a PNG where any
/// of them is clear and a JPEG otherwise, of the size of the square, which
/// decodes, and into the very same pixels where any of them is clear.
pub open spec fn reads_back(file: Seq<u8>, side: u32, rgba: Seq<u8>) -> bool {
    let clear = any_clear(rgba);
    &&& side > 0
    &&& format_of(file) == if clear {
        PictureFormat::Png
    } else {
        PictureFormat::Jpeg
    }
    &&& measures(file, (side, side))
    &&& reads_as_square(
        file,
        side,
        if clear {
            4
        } else {
            3
        },
    )
    &&& decodes(file, side)
    &&& clear ==> decodes_into(file, side, rgba)
}

/// What cutting a picture to a square and encoding that may come to.
pub open spec fn cut_may_be(
    bytes: Seq<u8>,
    side: u32,
    file: Result<Seq<u8>, AvatarErrorModel>,
) -> bool {
    exists|pixels: Result<Seq<u8>, Seq<char>>| #[trigger]
        square_may_be(bytes, SOURCE_ALLOC, side, Scaling::Lanczos3, pixels) && (match pixels {
            Ok(rgba) => file == encoded(rgba, side) && (file matches Ok(made) ==> reads_back(
                made,
                side,
                rgba,
            )),
            Err(reason) => file == Err::<Seq<u8>, AvatarErrorModel>(
                AvatarErrorModel::Decode(reason),
            ),
        })
}

/// What fitting may come to.
pub open spec fn fit_may_be(bytes: Seq<u8>, result: Result<FittedModel, AvatarErrorModel>) -> bool {
    match fit_refusal(bytes) {
        Some(refusal) => result == Err::<FittedModel, AvatarErrorModel>(refusal),
        None => {
            let header = header_of(bytes, SOURCE_ALLOC)->Ok_0;
            let source = (header.width, header.height);
            let side = target_side(header);
            if fits_as_it_is(bytes, header) {
                &&& result == Ok::<FittedModel, AvatarErrorModel>(
                    FittedModel { bytes, source, fitted: source },
                )
                &&& measures(bytes, source)
            } else if header.total_bytes > SOURCE_ALLOC {
                result == Err::<FittedModel, AvatarErrorModel>(
                    AvatarErrorModel::Decode("Memory limit exceeded"@),
                )
            } else {
                exists|first: Result<Seq<u8>, AvatarErrorModel>| #[trigger]
                    cut_may_be(bytes, side, first) && (match first {
                        Err(refusal) => result == Err::<FittedModel, AvatarErrorModel>(refusal),
                        Ok(file) => if file.len() <= MAX_BYTES {
                            result == Ok::<FittedModel, AvatarErrorModel>(
                                FittedModel { bytes: file, source, fitted: (side, side) },
                            )
                        } else {
                            retry_may_be(bytes, source, retry_side(side), result)
                        },
                    })
            }
        },
    }
}

/// What the retry at half size may come to.
pub open spec fn retry_may_be(
    bytes: Seq<u8>,
    source: (u32, u32),
    side: u32,
    result: Result<FittedModel, AvatarErrorModel>,
) -> bool {
    exists|second: Result<Seq<u8>, AvatarErrorModel>| #[trigger]
        cut_may_be(bytes, side, second) && result == (match second {
            Err(refusal) => Err(refusal),
            Ok(file) => if file.len() <= MAX_BYTES {
                Ok(FittedModel { bytes: file, source, fitted: (side, side) })
            } else {
                Err(AvatarErrorModel::TooManyBytes(file.len() as usize))
            },
        })
}

/// What making a file came to, with its bytes and text as sequences.
pub open spec fn file_outcome(r: Result<Vec<u8>, AvatarError>) -> Result<
    Seq<u8>,
    AvatarErrorModel,
> {
    match r {
        Ok(file) => Ok(file@),
        Err(err) => Err(err.deep_view()),
    }
}

fn has_clear(rgba: &Vec<u8>) -> (b: bool)
    ensures
        b == any_clear(rgba@),
{
    let len: usize = rgba.len();
    let pixels: usize = len / 4;
    let mut i: usize = 0;
    while i < pixels
        invariant
            len == rgba@.len(),
            pixels == len / 4,
            i <= pixels,
            forall|j: int| 0 <= j < i ==> #[trigger] rgba@[4 * j + 3] == 255,
        decreases pixels - i,
    {
        if rgba[4 * i + 3] < 255 {
            return true;
        }
        i += 1;
    }
    false
}

fn without_alpha(rgba: &Vec<u8>) -> (rgb: Vec<u8>)
    requires
        rgba@.len() % 4 == 0,
    ensures
        rgb@ == opaque_of(rgba@),
        rgb@.len() == 3 * (rgba@.len() / 4),
        forall|i: int|
            0 <= i < rgba@.len() / 4 ==> rgb@[3 * i] == #[trigger] rgba@[4 * i] && rgb@[3 * i + 1]
                == rgba@[4 * i + 1] && rgb@[3 * i + 2] == rgba@[4 * i + 2],
{
    let len: usize = rgba.len();
    let pixels: usize = len / 4;
    let ghost whole = opaque_of(rgba@);
    let mut rgb: Vec<u8> = Vec::new();
    let mut i: usize = 0;
    while i < pixels
        invariant
            len == rgba@.len(),
            pixels == len / 4,
            i <= pixels,
            whole == opaque_of(rgba@),
            rgb@ == whole.take(3 * i),
        decreases pixels - i,
    {
        assert(whole[3 * i] == rgba@[4 * i]);
        assert(whole[3 * i + 1] == rgba@[4 * i + 1]);
        assert(whole[3 * i + 2] == rgba@[4 * i + 2]);
        rgb.push(rgba[4 * i]);
        rgb.push(rgba[4 * i + 1]);
        rgb.push(rgba[4 * i + 2]);
        assert(whole.take(3 * i).push(whole[3 * i]).push(whole[3 * i + 1]).push(whole[3 * i + 2])
            =~= whole.take(3 * (i + 1)));
        i += 1;
    }
    assert(whole.take(3 * i) =~= whole);
    proof {
        dropping_the_alpha_keeps_every_color(rgba@);
    }
    rgb
}

/// Encodes a square of RGBA pixels the way it costs least.
pub fn encode(rgba: &Vec<u8>, side: u32) -> (r: Result<Vec<u8>, AvatarError>)
    requires
        rgba@.len() == 4 * side * side,
    ensures
        file_outcome(r) == encoded(rgba@, side),
        r matches Ok(file) ==> reads_back(file@, side, rgba@),
{
    assert(4 * side * side == 4 * (side * side) && 3 * side * side == 3 * (side * side))
        by (nonlinear_arith);
    let file = if has_clear(rgba) {
        write_png(side, copy_bytes(rgba))
    } else {
        write_jpeg(side, without_alpha(rgba), JPEG_QUALITY)
    };
    match file {
        Ok(file) => {
            assert(jpeg_signature()[0] == 0xffu8);
            assert(png_signature()[0] == 0x89u8);
            Ok(file)
        },
        Err(reason) => Err(AvatarError::Encode(reason)),
    }
}

fn cut(bytes: &[u8], side: u32) -> (r: Result<Vec<u8>, AvatarError>)
    requires
        format_of(bytes@) !is Other,
        header_of(bytes@, SOURCE_ALLOC) matches Ok(header) && header.width > 0 && header.height > 0,
        side > 0,
    ensures
        cut_may_be(bytes@, side, file_outcome(r)),
{
    let scaling = Scaling::Lanczos3;
    match read_square(bytes, SOURCE_ALLOC, side, scaling) {
        Ok(rgba) => {
            let ghost pixels = Ok::<Seq<u8>, Seq<char>>(rgba@);
            assert(square_may_be(bytes@, SOURCE_ALLOC, side, scaling, pixels));
            encode(&rgba, side)
        },
        Err(reason) => {
            let ghost pixels = Err::<Seq<u8>, Seq<char>>(reason@);
            assert(square_may_be(bytes@, SOURCE_ALLOC, side, scaling, pixels));
            Err(AvatarError::Decode(reason))
        },
    }
}

/// Crops a picked picture to a centred square, scales it to [`FIT_DIM`], and
/// re-encodes it, so that [`decode`]'s caps hold for any real photograph.
pub fn fit(bytes: &[u8]) -> (r: Result<Fitted, AvatarError>)
    ensures
        fit_may_be(bytes@, outcome(r)),
{
    if bytes.len() == 0 {
        return Err(AvatarError::Empty);
    }
    if let PictureFormat::Other = guess_format(bytes) {
        return Err(AvatarError::NotPngOrJpeg);
    }
    let header = match read_header(bytes, SOURCE_ALLOC) {
        Ok(header) => header,
        Err(reason) => {
            return Err(AvatarError::Decode(reason));
        },
    };
    let width = header.width;
    let height = header.height;
    if width == 0 || height == 0 {
        return Err(AvatarError::TooLarge { width, height });
    }
    assert(width * height <= u32::MAX * u32::MAX) by (nonlinear_arith)
        requires
            width <= u32::MAX,
            height <= u32::MAX,
    ;
    if width as u64 * height as u64 > MAX_SOURCE_PIXELS {
        return Err(AvatarError::TooManyPixels { width, height });
    }
    let source = (width, height);
    // Already at drawing size and under the cap: send the file the musician
    // chose rather than recompressing their picture for nothing.
    if width <= FIT_DIM && height <= FIT_DIM && bytes.len() <= MAX_BYTES {
        let kept = bytes_of(bytes);
        return Ok(Fitted { bytes: kept, source, fitted: source });
    }
    if let Err(reason) = reserve(SOURCE_ALLOC, header.total_bytes) {
        return Err(AvatarError::Decode(reason));
    }
    let shorter: u32 = if width <= height {
        width
    } else {
        height
    };
    let side: u32 = if shorter < FIT_DIM {
        shorter
    } else {
        FIT_DIM
    };
    let first = cut(bytes, side);
    let ghost first_model = file_outcome(first);
    assert(cut_may_be(bytes@, side, first_model));
    let file = match first {
        Ok(file) => file,
        Err(err) => {
            return Err(err);
        },
    };
    if file.len() <= MAX_BYTES {
        return Ok(Fitted { bytes: file, source, fitted: (side, side) });
    }
    // Half size is the retry, and it only exists for one case: 256x256 of pure
    // noise with an alpha channel is a hair over the cap, and 128 px of
    // anything at all is far under it.
    let half: u32 = if side / 2 < 1 {
        1
    } else {
        side / 2
    };
    let second = cut(bytes, half);
    let ghost second_model = file_outcome(second);
    assert(cut_may_be(bytes@, half, second_model));
    match second {
        Ok(file) => if file.len() <= MAX_BYTES {
            Ok(Fitted { bytes: file, source, fitted: (half, half) })
        } else {
            Err(AvatarError::TooManyBytes(file.len()))
        },
        Err(err) => Err(err),
    }
}

/// The same bytes in a vector of their own.
fn bytes_of(bytes: &[u8]) -> (v: Vec<u8>)
    ensures
        v@ == bytes@,
{
    let mut v: Vec<u8> = Vec::new();
    v.extend_from_slice(bytes);
    assert(v@ =~= bytes@);
    v
}

/// Whatever fitting gives is inside the byte cap and at most the drawing size
/// on either axis, and it says the size of the file it came from.
pub proof fn a_fitted_picture_is_inside_the_caps(bytes: Seq<u8>, fitted: FittedModel)
    requires
        fit_may_be(bytes, Ok::<FittedModel, AvatarErrorModel>(fitted)),
    ensures
        fitted.bytes.len() <= MAX_BYTES,
        0 < fitted.fitted.0 <= FIT_DIM,
        0 < fitted.fitted.1 <= FIT_DIM,
        header_of(bytes, SOURCE_ALLOC) matches Ok(header) && fitted.source == (
            header.width,
            header.height,
        ),
{
}

/// A picture that has to be cut comes out square, and never larger than its
/// own shorter side.
pub proof fn a_cut_picture_is_a_square_no_larger_than_the_source(
    bytes: Seq<u8>,
    fitted: FittedModel,
)
    requires
        fit_may_be(bytes, Ok::<FittedModel, AvatarErrorModel>(fitted)),
        fitted.bytes != bytes,
    ensures
        fitted.fitted.0 == fitted.fitted.1,
        fitted.fitted.0 <= fitted.source.0,
        fitted.fitted.0 <= fitted.source.1,
{
}

/// A picture already at drawing size and under the cap is left alone.
pub proof fn a_small_picture_is_left_alone(
    bytes: Seq<u8>,
    header: Header,
    result: Result<FittedModel, AvatarErrorModel>,
)
    requires
        fit_refusal(bytes) is None,
        header_of(bytes, SOURCE_ALLOC) == Ok::<Header, Seq<char>>(header),
        fits_as_it_is(bytes, header),
        fit_may_be(bytes, result),
    ensures
        result == Ok::<FittedModel, AvatarErrorModel>(
            FittedModel {
                bytes,
                source: (header.width, header.height),
                fitted: (header.width, header.height),
            },
        ),
{
}

proof fn lemma_small_square(side: u32, per_pixel: int)
    requires
        side <= FIT_DIM,
        0 <= per_pixel <= 4,
    ensures
        0 <= per_pixel * side * side <= 262_144,
        side * side <= MAX_SOURCE_PIXELS,
{
    assert(0 <= per_pixel * side * side <= 262_144) by (nonlinear_arith)
        requires
            0 <= side <= 256,
            0 <= per_pixel <= 4,
    ;
    assert(side * side <= 65_536) by (nonlinear_arith)
        requires
            0 <= side <= 256,
    ;
}

/// What a cut comes to has a header, a format and a size that the caps admit,
/// both those for a picked file and those for an avatar.
proof fn lemma_cut_is_admitted(bytes: Seq<u8>, side: u32, file: Seq<u8>)
    requires
        cut_may_be(bytes, side, Ok::<Seq<u8>, AvatarErrorModel>(file)),
        side <= FIT_DIM,
        file.len() <= MAX_BYTES,
    ensures
        fit_refusal(file) is None,
        decode_refusal(file) is None,
        header_of(file, SOURCE_ALLOC) matches Ok(header) && header.width == side && header.height
            == side,
        header_of(file, AVATAR_ALLOC) matches Ok(header) && header.width == side && header.height
            == side,
{
    let made = Ok::<Seq<u8>, AvatarErrorModel>(file);
    let pixels = choose|pixels: Result<Seq<u8>, Seq<char>>| #[trigger]
        square_may_be(bytes, SOURCE_ALLOC, side, Scaling::Lanczos3, pixels) && (match pixels {
            Ok(rgba) => made == encoded(rgba, side) && (made matches Ok(made) ==> reads_back(
                made,
                side,
                rgba,
            )),
            Err(reason) => made == Err::<Seq<u8>, AvatarErrorModel>(
                AvatarErrorModel::Decode(reason),
            ),
        });
    let rgba = pixels->Ok_0;
    assert(reads_back(file, side, rgba));
    lemma_small_square(side, 3);
    lemma_small_square(side, 4);
    assert(png_signature().len() == 8 && jpeg_signature().len() == 3);
    assert(file.len() > 0);
}

/// A picture that was fitted is left alone byte for byte when it is fitted
/// again, never recompressed.
pub proof fn fitting_twice_is_fitting_once(
    bytes: Seq<u8>,
    fitted: FittedModel,
    again: Result<FittedModel, AvatarErrorModel>,
)
    requires
        fit_may_be(bytes, Ok::<FittedModel, AvatarErrorModel>(fitted)),
        fit_may_be(fitted.bytes, again),
    ensures
        again == Ok::<FittedModel, AvatarErrorModel>(
            FittedModel {
                bytes: fitted.bytes,
                source: fitted.fitted,
                fitted: fitted.fitted,
            },
        ),
{
    let header = header_of(bytes, SOURCE_ALLOC)->Ok_0;
    if !fits_as_it_is(bytes, header) {
        lemma_fitted_is_a_cut(bytes, fitted);
        lemma_cut_is_admitted(bytes, fitted.fitted.0, fitted.bytes);
    }
}

proof fn lemma_fitted_is_a_cut(bytes: Seq<u8>, fitted: FittedModel)
    requires
        fit_may_be(bytes, Ok::<FittedModel, AvatarErrorModel>(fitted)),
        !fits_as_it_is(bytes, header_of(bytes, SOURCE_ALLOC)->Ok_0),
    ensures
        fitted.fitted.0 == fitted.fitted.1,
        0 < fitted.fitted.0 <= FIT_DIM,
        fitted.bytes.len() <= MAX_BYTES,
        cut_may_be(bytes, fitted.fitted.0, Ok::<Seq<u8>, AvatarErrorModel>(fitted.bytes)),
{
}

/// Whatever fitting gives decodes, at the size it says: a picture that was cut
/// does so always, and one that was left alone unless its own file holds less
/// than its header says. No cap refuses it either way.
pub proof fn what_was_fitted_decodes(
    bytes: Seq<u8>,
    fitted: FittedModel,
    hash: Seq<char>,
    decoded: Result<AvatarModel, AvatarErrorModel>,
)
    requires
        fit_may_be(bytes, Ok::<FittedModel, AvatarErrorModel>(fitted)),
        decode_may_be(hash, fitted.bytes, decoded),
    ensures
        match decoded {
            Ok(handle) => handle.hash == hash && (handle.width, handle.height) == fitted.fitted,
            Err(refusal) => refusal is Decode && fitted.bytes == bytes,
        },
{
    let header = header_of(bytes, SOURCE_ALLOC)->Ok_0;
    if !fits_as_it_is(bytes, header) {
        lemma_fitted_is_a_cut(bytes, fitted);
        lemma_cut_is_admitted(bytes, fitted.fitted.0, fitted.bytes);
    }
}

/// Transparency survives the fit: a picture that was cut with a clear pixel in
/// it is a PNG, and decodes into the very pixels it was cut to.
pub proof fn transparency_survives_the_fit(
    bytes: Seq<u8>,
    fitted: FittedModel,
    hash: Seq<char>,
    handle: AvatarModel,
)
    requires
        fit_may_be(bytes, Ok::<FittedModel, AvatarErrorModel>(fitted)),
        fitted.bytes != bytes,
        format_of(fitted.bytes) is Png,
        decode_may_be(hash, fitted.bytes, Ok::<AvatarModel, AvatarErrorModel>(handle)),
    ensures
        any_clear(handle.rgba),
        square_may_be(
            bytes,
            SOURCE_ALLOC,
            fitted.fitted.0,
            Scaling::Lanczos3,
            Ok::<Seq<u8>, Seq<char>>(handle.rgba),
        ),
{
    lemma_fitted_is_a_cut(bytes, fitted);
    lemma_cut_is_admitted(bytes, fitted.fitted.0, fitted.bytes);
}

/// What loading a picked file may come to: fitted, then decoded under its own
/// key, with the file's name in front of whatever was refused.
pub open spec fn load_may_be(
    file: Seq<char>,
    bytes: Seq<u8>,
    result: Result<PictureModel, Seq<char>>,
) -> bool {
    exists|fitted: Result<FittedModel, AvatarErrorModel>| #[trigger]
        fit_may_be(bytes, fitted) && (match fitted {
            Err(refusal) => result == Err::<PictureModel, Seq<char>>(
                file + ": "@ + refusal.text(),
            ),
            Ok(fitted) => exists|handle: Result<AvatarModel, AvatarErrorModel>| #[trigger]
                decode_may_be(key_of(fitted.bytes), fitted.bytes, handle) && result == (
                match handle {
                    Err(refusal) => Err(file + ": "@ + refusal.text()),
                    Ok(handle) => Ok(
                        PictureModel {
                            file,
                            source: fitted.source,
                            fitted: fitted.fitted,
                            bytes: fitted.bytes,
                            handle,
                        },
                    ),
                }),
        })
}

#[verifier::ext_equal]
pub struct PictureModel {
    pub file: Seq<char>,
    pub source: (u32, u32),
    pub fitted: (u32, u32),
    pub bytes: Seq<u8>,
    pub handle: AvatarModel,
}

impl DeepView for Picture {
    type V = PictureModel;

    open spec fn deep_view(&self) -> PictureModel {
        PictureModel {
            file: self.file@,
            source: self.source,
            fitted: self.fitted,
            bytes: self.bytes@,
            handle: self.handle.deep_view(),
        }
    }
}

impl Clone for Picture {
    fn clone(&self) -> (r: Picture)
        ensures
            r.deep_view() == self.deep_view(),
    {
        Picture {
            file: self.file.clone(),
            source: self.source,
            fitted: self.fitted,
            bytes: copy_bytes(&self.bytes),
            handle: self.handle.clone(),
        }
    }
}

/// Runs the whole pipeline on a picked file's bytes: fit, then the same
/// [`decode`] any avatar off the wire goes through. A refusal names the file,
/// because a musician who picked the wrong one needs to know which file the
/// complaint is about.
pub fn load(file: String, bytes: &[u8]) -> (r: Result<Picture, String>)
    ensures
        load_may_be(file@, bytes@, outcome(r)),
{
    let tried = fit(bytes);
    let ghost tried_model = outcome(tried);
    assert(fit_may_be(bytes@, tried_model));
    let fitted = match tried {
        Ok(fitted) => fitted,
        Err(err) => {
            return Err(about(file, &err));
        },
    };
    let key = local_key(fitted.bytes.as_slice());
    let decoded = decode(key, fitted.bytes.as_slice());
    let ghost decoded_model = outcome(decoded);
    assert(decode_may_be(key_of(fitted.bytes@), fitted.bytes@, decoded_model));
    match decoded {
        Ok(handle) => {
            let picture = Picture {
                file,
                source: fitted.source,
                fitted: fitted.fitted,
                bytes: fitted.bytes,
                handle,
            };
            assert(picture.deep_view() == (PictureModel {
                file: file@,
                source: tried_model->Ok_0.source,
                fitted: tried_model->Ok_0.fitted,
                bytes: tried_model->Ok_0.bytes,
                handle: decoded_model->Ok_0,
            }));
            Ok(picture)
        },
        Err(err) => Err(about(file, &err)),
    }
}

fn about(file: String, err: &AvatarError) -> (s: String)
    ensures
        s@ == file@ + ": "@ + err.deep_view().text(),
{
    let mut s = file;
    s.append(": ");
    s.append(err.message().as_str());
    s
}

// --------------------------------------------------------------------- keys

/// Bytes in lowercase hexadecimal, two digits each.
pub open spec fn hex_of(bytes: Seq<u8>) -> Seq<char>
    decreases bytes.len(),
{
    if bytes.len() == 0 {
        Seq::empty()
    } else {
        hex_of(bytes.drop_last()).push(digit(bytes.last() as int / 16)).push(
            digit(bytes.last() as int % 16),
        )
    }
}

/// `data_encoding::HEXLOWER` writes each byte as two lowercase hexadecimal
/// digits, the high one first.
#[verifier::external_body]
pub(crate) fn hex_lower(bytes: &[u8]) -> (s: String)
    ensures
        s@ == hex_of(bytes@),
{
    data_encoding::HEXLOWER.encode(bytes)
}

/// Lowercase hex of a content hash; the cache and texture key everywhere.
pub fn hash_hex(hash: &[u8; 32]) -> (s: String)
    ensures
        s@ == hex_of(hash@),
{
    hex_lower(hash.as_slice())
}

proof fn lemma_hex_len(bytes: Seq<u8>)
    ensures
        hex_of(bytes).len() == 2 * bytes.len(),
    decreases bytes.len(),
{
    if bytes.len() > 0 {
        lemma_hex_len(bytes.drop_last());
    }
}

proof fn lemma_digits_differ(a: int, b: int)
    requires
        0 <= a < 16,
        0 <= b < 16,
        digit(a) == digit(b),
    ensures
        a == b,
{
}

/// Two hashes that are not the same have keys that are not the same.
pub proof fn different_hashes_have_different_keys(a: Seq<u8>, b: Seq<u8>)
    requires
        hex_of(a) == hex_of(b),
    ensures
        a == b,
    decreases a.len(),
{
    lemma_hex_len(a);
    lemma_hex_len(b);
    if a.len() > 0 {
        let x = hex_of(a);
        let y = hex_of(b);
        assert(x.drop_last().drop_last() =~= hex_of(a.drop_last()));
        assert(y.drop_last().drop_last() =~= hex_of(b.drop_last()));
        different_hashes_have_different_keys(a.drop_last(), b.drop_last());
        assert(x[x.len() - 1] == digit(a.last() as int % 16));
        assert(y[y.len() - 1] == digit(b.last() as int % 16));
        assert(x[x.len() - 2] == digit(a.last() as int / 16));
        assert(y[y.len() - 2] == digit(b.last() as int / 16));
        lemma_digits_differ(a.last() as int % 16, b.last() as int % 16);
        lemma_digits_differ(a.last() as int / 16, b.last() as int / 16);
        assert(a =~= a.drop_last().push(a.last()));
        assert(b =~= b.drop_last().push(b.last()));
    } else {
        assert(a =~= b);
    }
}

/// The 64-bit FNV-1a hash of the bytes.
pub open spec fn fnv(bytes: Seq<u8>) -> u64
    decreases bytes.len(),
{
    if bytes.len() == 0 {
        0xcbf2_9ce4_8422_2325
    } else {
        (fnv(bytes.drop_last()) ^ (bytes.last() as u64)).wrapping_mul(0x0000_0100_0000_01b3)
    }
}

pub fn fnv1a(bytes: &[u8]) -> (h: u64)
    ensures
        h == fnv(bytes@),
{
    let mut h: u64 = 0xcbf2_9ce4_8422_2325;
    let mut i: usize = 0;
    while i < bytes.len()
        invariant
            i <= bytes@.len(),
            h == fnv(bytes@.take(i as int)),
        decreases bytes.len() - i,
    {
        assert(bytes@.take(i + 1).drop_last() =~= bytes@.take(i as int));
        h = (h ^ (bytes[i] as u64)).wrapping_mul(0x0000_0100_0000_01b3);
        i += 1;
    }
    assert(bytes@.take(i as int) =~= bytes@);
    h
}

/// The key of bytes picked on this computer.
pub open spec fn key_of(bytes: Seq<u8>) -> Seq<char> {
    "local-"@ + hex_fixed(fnv(bytes) as nat, 16)
}

/// Texture key for bytes picked on this computer, before any session has
/// hashed them: a stable per-content key, so choosing the same file twice does
/// not upload it twice.
pub fn local_key(bytes: &[u8]) -> (s: String)
    ensures
        s@ == key_of(bytes@),
        s@ == "local-"@ + hex_fixed(fnv(bytes@) as nat, 16),
{
    let mut s = "local-".to_owned();
    push_hex_fixed(&mut s, fnv1a(bytes), 16);
    s
}

// ----------------------------------------------------------- the initials disc

/// The hue of a name's disc, in degrees: hashed from the name, with the arc
/// from 210 to 330 skipped, blue through purple.
pub open spec fn hue_of(name: Seq<u8>) -> int {
    let h = fnv(name) as int % 240;
    if h >= 210 {
        h + 120
    } else {
        h
    }
}

/// One channel of the disc, whose saturation is 0.30 and lightness 0.32, for a
/// hue `t` degrees from the nearest hue that has none of it: 255 times
/// 0.224 + 0.192 t / 60, to the nearest whole number.
pub open spec fn channel(t: int) -> int {
    (2 * (7140 + 102 * t) + 125) / 250
}

/// How far a hue is up the slope of its sextant: 0 at a hue of one full and one
/// empty channel, 60 at a hue of two full ones.
pub open spec fn slope(hue: int) -> int {
    if hue % 120 <= 60 {
        hue % 120
    } else {
        120 - hue % 120
    }
}

/// The red, green and blue of a hue's disc.
pub open spec fn disc_of(hue: int) -> (int, int, int) {
    let full = channel(60);
    let none = channel(0);
    let part = channel(slope(hue));
    if hue < 60 {
        (full, part, none)
    } else if hue < 120 {
        (part, full, none)
    } else if hue < 180 {
        (none, full, part)
    } else if hue < 240 {
        (none, part, full)
    } else if hue < 300 {
        (part, none, full)
    } else {
        (full, none, part)
    }
}

/// The hue of a name's disc, in degrees.
pub fn disc_hue(name: &str) -> (hue: u32)
    ensures
        hue == hue_of(vstd::utf8::encode_utf8(name@)),
{
    let h: u32 = (fnv1a(name.as_bytes()) % 240) as u32;
    if h >= 210 {
        h + 120
    } else {
        h
    }
}

/// Initials-disc fill, red, green and blue: hue hashed from the name,
/// desaturated so identity color never competes with meter color.
pub fn disc_color(name: &str) -> (rgb: (u8, u8, u8))
    ensures
        (rgb.0 as int, rgb.1 as int, rgb.2 as int) == disc_of(hue_of(vstd::utf8::encode_utf8(name@))),
{
    let hue: u32 = disc_hue(name);
    let up: u32 = if hue % 120 <= 60 {
        hue % 120
    } else {
        120 - hue % 120
    };
    let full: u8 = 106;
    let none: u8 = 57;
    let part: u8 = ((2 * (7140 + 102 * up) + 125) / 250) as u8;
    if hue < 60 {
        (full, part, none)
    } else if hue < 120 {
        (part, full, none)
    } else if hue < 180 {
        (none, full, part)
    } else if hue < 240 {
        (none, part, full)
    } else if hue < 300 {
        (part, none, full)
    } else {
        (full, none, part)
    }
}

/// No name lands in the banned arc, blue through purple.
pub proof fn no_name_lands_in_the_purple_arc(name: Seq<u8>)
    ensures
        0 <= hue_of(name) < 360,
        !(210 <= hue_of(name) < 330),
{
}

/// A character in upper case, as the standard library maps it. One character
/// may become several.
pub uninterp spec fn uppercase(c: char) -> Seq<char>;

/// `char::to_uppercase` gives the characters of the Unicode uppercase mapping.
#[verifier::external_body]
fn to_upper(c: char) -> (s: String)
    ensures
        s@ == uppercase(c),
{
    c.to_uppercase().collect()
}

/// Where the first word at or after `from` begins: the first character that
/// does not separate words.
pub open spec fn word_start(s: Seq<char>, from: int) -> int
    decreases s.len() - from,
{
    if 0 <= from < s.len() && white_space(s[from]) {
        word_start(s, from + 1)
    } else {
        from
    }
}

/// Where the word at `from` ends.
pub open spec fn word_end(s: Seq<char>, from: int) -> int
    decreases s.len() - from,
{
    if 0 <= from < s.len() && !white_space(s[from]) {
        word_end(s, from + 1)
    } else {
        from
    }
}

/// The letters that stand for a name: the first of each of the first two
/// words, or the first two of a lone word.
pub open spec fn letters_of(name: Seq<char>) -> Seq<char> {
    let first = word_start(name, 0);
    let end = word_end(name, first);
    let second = word_start(name, end);
    if first >= name.len() {
        Seq::empty()
    } else if second < name.len() {
        seq![name[first], name[second]]
    } else if end > first + 1 {
        seq![name[first], name[first + 1]]
    } else {
        seq![name[first]]
    }
}

/// The letters in upper case, one after another.
pub open spec fn in_capitals(letters: Seq<char>) -> Seq<char>
    decreases letters.len(),
{
    if letters.len() == 0 {
        Seq::empty()
    } else {
        in_capitals(letters.drop_last()) + uppercase(letters.last())
    }
}

/// What stands on the disc of a name: its letters in upper case, or a question
/// mark where there are none.
pub open spec fn initials_of(name: Seq<char>) -> Seq<char> {
    let out = in_capitals(letters_of(name));
    if out.len() == 0 {
        seq!['?']
    } else {
        out
    }
}

/// The letters that stand for a name.
pub fn initial_letters(name: &str) -> (letters: Vec<char>)
    ensures
        letters@ == letters_of(name@),
{
    let all = chars_of(name);
    let first: usize = skip_space(&all, 0);
    let end: usize = skip_word(&all, first);
    let second: usize = skip_space(&all, end);
    let mut letters: Vec<char> = Vec::new();
    if first < all.len() {
        letters.push(all[first]);
        if second < all.len() {
            letters.push(all[second]);
        } else if end > first + 1 {
            letters.push(all[first + 1]);
        }
    }
    assert(letters@ =~= letters_of(name@));
    letters
}

fn skip_space(all: &Vec<char>, from: usize) -> (at: usize)
    requires
        from <= all@.len(),
    ensures
        at == word_start(all@, from as int),
        from <= at <= all@.len(),
{
    let mut at: usize = from;
    while at < all.len() && is_white_space(all[at])
        invariant
            from <= at <= all@.len(),
            word_start(all@, from as int) == word_start(all@, at as int),
        decreases all.len() - at,
    {
        at += 1;
    }
    at
}

fn skip_word(all: &Vec<char>, from: usize) -> (at: usize)
    requires
        from <= all@.len(),
    ensures
        at == word_end(all@, from as int),
        from <= at <= all@.len(),
{
    let mut at: usize = from;
    while at < all.len() && !is_white_space(all[at])
        invariant
            from <= at <= all@.len(),
            word_end(all@, from as int) == word_end(all@, at as int),
        decreases all.len() - at,
    {
        at += 1;
    }
    at
}

/// First letters of the first two words; two letters of a lone word.
pub fn initials(name: &str) -> (s: String)
    ensures
        s@ == initials_of(name@),
{
    let letters = initial_letters(name);
    let mut out = String::new();
    let mut i: usize = 0;
    while i < letters.len()
        invariant
            letters@ == letters_of(name@),
            i <= letters@.len(),
            out@ == in_capitals(letters@.take(i as int)),
        decreases letters.len() - i,
    {
        assert(letters@.take(i + 1).drop_last() =~= letters@.take(i as int));
        out.append(to_upper(letters[i]).as_str());
        i += 1;
    }
    assert(letters@.take(i as int) =~= letters@);
    if out.as_str().is_empty() {
        out.push('?');
        assert(out@ =~= seq!['?']);
    }
    out
}

// ----------------------------------------------------------------------- laws

/// Dropping the alpha keeps every pixel's red, green and blue, each in its own
/// place, and nothing else.
pub proof fn dropping_the_alpha_keeps_every_color(rgba: Seq<u8>)
    requires
        rgba.len() % 4 == 0,
    ensures
        opaque_of(rgba).len() == 3 * (rgba.len() / 4),
        forall|i: int|
            0 <= i < rgba.len() / 4 ==> opaque_of(rgba)[3 * i] == #[trigger] rgba[4 * i]
                && opaque_of(rgba)[3 * i + 1] == rgba[4 * i + 1] && opaque_of(rgba)[3 * i + 2]
                == rgba[4 * i + 2],
        forall|i: int, c: int|
            0 <= i < rgba.len() / 4 && 0 <= c < 3 ==> #[trigger] opaque_of(rgba)[3 * i + c]
                == rgba[4 * i + c],
{
    let rgb = opaque_of(rgba);
    assert forall|i: int, c: int| 0 <= i < rgba.len() / 4 && 0 <= c < 3 implies #[trigger] rgb[3 * i
        + c] == rgba[4 * i + c] by {
        assert((3 * i + c) / 3 == i && (3 * i + c) % 3 == c);
    }
    assert forall|i: int| 0 <= i < rgba.len() / 4 implies rgb[3 * i] == #[trigger] rgba[4 * i]
        && rgb[3 * i + 1] == rgba[4 * i + 1] && rgb[3 * i + 2] == rgba[4 * i + 2] by {
        assert(rgb[3 * i + 0] == rgba[4 * i + 0]);
        assert(rgb[3 * i + 1] == rgba[4 * i + 1]);
        assert(rgb[3 * i + 2] == rgba[4 * i + 2]);
    }
}

/// A square with a pixel that lets anything through becomes a PNG of those
/// very pixels. One with none becomes a JPEG, at a quality of ninety, of the
/// same colors without the alpha.
pub proof fn only_what_is_clear_stays_png(rgba: Seq<u8>, side: u32, rgb: Seq<u8>)
    requires
        rgba.len() % 4 == 0,
        rgb.len() == 3 * (rgba.len() / 4),
        forall|i: int, c: int|
            0 <= i < rgba.len() / 4 && 0 <= c < 3 ==> #[trigger] rgb[3 * i + c] == rgba[4 * i + c],
    ensures
        ({
            let clear = exists|i: int|
                0 <= i < rgba.len() / 4 && #[trigger] rgba[4 * i + 3] != 255;
            let written = if clear {
                png_of(side, rgba)
            } else {
                jpeg_of(side, rgb, 90)
            };
            &&& written matches Ok(file) ==> encoded(rgba, side) == Ok::<
                Seq<u8>,
                AvatarErrorModel,
            >(file)
            &&& written matches Err(reason) ==> encoded(rgba, side) == Err::<
                Seq<u8>,
                AvatarErrorModel,
            >(AvatarErrorModel::Encode(reason))
        }),
{
    dropping_the_alpha_keeps_every_color(rgba);
    let own = opaque_of(rgba);
    assert forall|k: int| 0 <= k < rgb.len() implies rgb[k] == own[k] by {
        assert(rgb[3 * (k / 3) + k % 3] == rgba[4 * (k / 3) + k % 3]);
        assert(own[3 * (k / 3) + k % 3] == rgba[4 * (k / 3) + k % 3]);
        assert(3 * (k / 3) + k % 3 == k);
    }
    assert(rgb =~= own);
    if exists|i: int| 0 <= i < rgba.len() / 4 && #[trigger] rgba[4 * i + 3] != 255 {
        let i = choose|i: int| 0 <= i < rgba.len() / 4 && #[trigger] rgba[4 * i + 3] != 255;
        assert(rgba[4 * i + 3] < 255);
    }
}

/// Bytes that do not become a picture are refused for the first thing that is
/// wrong with them, with its number: nothing there, too many bytes, some other
/// format, a header that cannot be read, a side past the cap, too much memory.
pub proof fn bytes_are_refused_for_what_is_wrong_with_them(
    hash: Seq<char>,
    bytes: Seq<u8>,
    result: Result<AvatarModel, AvatarErrorModel>,
)
    requires
        bytes.len() <= usize::MAX,
        decode_may_be(hash, bytes, result),
    ensures
        if bytes.len() == 0 {
            result == Err::<AvatarModel, AvatarErrorModel>(AvatarErrorModel::Empty)
        } else if bytes.len() > 262_144 {
            result matches Err(AvatarErrorModel::TooManyBytes(n)) && n == bytes.len()
        } else if format_of(bytes) is Other {
            result == Err::<AvatarModel, AvatarErrorModel>(AvatarErrorModel::NotPngOrJpeg)
        } else {
            match header_of(bytes, 8_388_608) {
                Err(reason) => result == Err::<AvatarModel, AvatarErrorModel>(
                    AvatarErrorModel::Decode(reason),
                ),
                Ok(header) => if header.width == 0 || header.width > 1024 || header.height == 0
                    || header.height > 1024 {
                    result matches Err(AvatarErrorModel::TooLarge { width, height }) && width
                        == header.width && height == header.height
                } else if header.total_bytes > 8_388_608 {
                    result matches Err(AvatarErrorModel::Decode(_))
                } else {
                    match result {
                        Ok(handle) => handle.hash == hash && handle.width == header.width
                            && handle.height == header.height && pixels_may_be(
                            bytes,
                            8_388_608,
                            Ok::<Seq<u8>, Seq<char>>(handle.rgba),
                        ),
                        Err(refusal) => refusal matches AvatarErrorModel::Decode(reason)
                            && pixels_may_be(
                            bytes,
                            8_388_608,
                            Err::<Seq<u8>, Seq<char>>(reason),
                        ),
                    }
                },
            }
        },
{
}

/// A picked picture is refused only for what no cutting mends. One that is at
/// drawing size already is kept byte for byte, and any other comes out as a
/// square whose side is the shorter of its own, the drawing size at most, or
/// half of that.
pub proof fn a_picked_picture_is_kept_or_cut(
    bytes: Seq<u8>,
    result: Result<FittedModel, AvatarErrorModel>,
)
    requires
        fit_may_be(bytes, result),
    ensures
        if bytes.len() == 0 {
            result == Err::<FittedModel, AvatarErrorModel>(AvatarErrorModel::Empty)
        } else if format_of(bytes) is Other {
            result == Err::<FittedModel, AvatarErrorModel>(AvatarErrorModel::NotPngOrJpeg)
        } else {
            match header_of(bytes, 400_000_000) {
                Err(reason) => result == Err::<FittedModel, AvatarErrorModel>(
                    AvatarErrorModel::Decode(reason),
                ),
                Ok(header) => {
                    let w = header.width;
                    let h = header.height;
                    if w == 0 || h == 0 {
                        result matches Err(AvatarErrorModel::TooLarge { width, height }) && width
                            == w && height == h
                    } else if w * h > 100_000_000 {
                        result matches Err(AvatarErrorModel::TooManyPixels { width, height })
                            && width == w && height == h
                    } else if w <= 256 && h <= 256 && bytes.len() <= 262_144 {
                        result matches Ok(fitted) && fitted.bytes == bytes && fitted.source == (
                            w,
                            h,
                        ) && fitted.fitted == (w, h)
                    } else if header.total_bytes > 400_000_000 {
                        result matches Err(AvatarErrorModel::Decode(_))
                    } else {
                        match result {
                            Ok(fitted) => {
                                let side = fitted.fitted.0;
                                &&& fitted.source == (w, h)
                                &&& fitted.fitted.1 == side
                                &&& fitted.bytes.len() <= 262_144
                                &&& cut_may_be(
                                    bytes,
                                    side,
                                    Ok::<Seq<u8>, AvatarErrorModel>(fitted.bytes),
                                )
                                &&& is_drawing_side(w, h, side) || exists|whole: u32|
                                    is_drawing_side(w, h, whole) && (side == whole / 2 || whole
                                        == 1 && side == 1) && #[trigger] cut_is_over_the_cap(
                                        bytes,
                                        whole,
                                    )
                            },
                            Err(refusal) => refusal is Decode || refusal is Encode
                                || refusal is TooManyBytes,
                        }
                    }
                },
            }
        },
{
    if fit_refusal(bytes) is None {
        let header = header_of(bytes, SOURCE_ALLOC)->Ok_0;
        if !fits_as_it_is(bytes, header) && header.total_bytes <= SOURCE_ALLOC {
            let side = target_side(header);
            let first = choose|first: Result<Seq<u8>, AvatarErrorModel>| #[trigger]
                cut_may_be(bytes, side, first) && (match first {
                    Err(refusal) => result == Err::<FittedModel, AvatarErrorModel>(refusal),
                    Ok(file) => if file.len() <= MAX_BYTES {
                        result == Ok::<FittedModel, AvatarErrorModel>(
                            FittedModel {
                                bytes: file,
                                source: (header.width, header.height),
                                fitted: (side, side),
                            },
                        )
                    } else {
                        retry_may_be(
                            bytes,
                            (header.width, header.height),
                            retry_side(side),
                            result,
                        )
                    },
                });
            if let Ok(file) = first {
                if file.len() > MAX_BYTES {
                    assert(cut_is_over_the_cap(bytes, side));
                }
            }
        }
    }
}

/// Whether a side is the largest a picture of that size is cut to: 256, or the
/// shorter of the two where that is less.
pub open spec fn is_drawing_side(width: u32, height: u32, side: u32) -> bool {
    &&& side <= 256 && side <= width && side <= height
    &&& side == 256 || side == width || side == height
}

/// Whether a picture cut to that side may be past the byte cap.
pub open spec fn cut_is_over_the_cap(bytes: Seq<u8>, side: u32) -> bool {
    exists|file: Seq<u8>|
        file.len() > 262_144 && #[trigger] cut_may_be(
            bytes,
            side,
            Ok::<Seq<u8>, AvatarErrorModel>(file),
        )
}

/// What loading gives is the picture that was fitted, decoded, under the name
/// of its file; a refusal begins with that name.
pub proof fn a_loaded_picture_is_the_fitted_one(
    file: Seq<char>,
    bytes: Seq<u8>,
    result: Result<PictureModel, Seq<char>>,
)
    requires
        load_may_be(file, bytes, result),
    ensures
        match result {
            Ok(picture) => {
                &&& picture.file == file
                &&& fit_may_be(
                    bytes,
                    Ok::<FittedModel, AvatarErrorModel>(
                        FittedModel {
                            bytes: picture.bytes,
                            source: picture.source,
                            fitted: picture.fitted,
                        },
                    ),
                )
                &&& decode_may_be(
                    "local-"@ + hex_fixed(fnv(picture.bytes) as nat, 16),
                    picture.bytes,
                    Ok::<AvatarModel, AvatarErrorModel>(picture.handle),
                )
                &&& (picture.handle.width, picture.handle.height) == picture.fitted
            },
            Err(text) => (file + ": "@).is_prefix_of(text) && (bytes.len() == 0 ==> text == file
                + ": "@ + "the file is empty"@),
        },
{
    let fitted = choose|fitted: Result<FittedModel, AvatarErrorModel>| #[trigger]
        fit_may_be(bytes, fitted) && (match fitted {
            Err(refusal) => result == Err::<PictureModel, Seq<char>>(
                file + ": "@ + refusal.text(),
            ),
            Ok(fitted) => exists|handle: Result<AvatarModel, AvatarErrorModel>| #[trigger]
                decode_may_be(key_of(fitted.bytes), fitted.bytes, handle) && result == (
                match handle {
                    Err(refusal) => Err(file + ": "@ + refusal.text()),
                    Ok(handle) => Ok(
                        PictureModel {
                            file,
                            source: fitted.source,
                            fitted: fitted.fitted,
                            bytes: fitted.bytes,
                            handle,
                        },
                    ),
                }),
        });
    if let Ok(fitted) = fitted {
        let handle = choose|handle: Result<AvatarModel, AvatarErrorModel>| #[trigger]
            decode_may_be(key_of(fitted.bytes), fitted.bytes, handle) && result == (match handle {
                Err(refusal) => Err(file + ": "@ + refusal.text()),
                Ok(handle) => Ok(
                    PictureModel {
                        file,
                        source: fitted.source,
                        fitted: fitted.fitted,
                        bytes: fitted.bytes,
                        handle,
                    },
                ),
            });
        what_was_fitted_decodes(bytes, fitted, key_of(fitted.bytes), handle);
        assert(FittedModel {
            bytes: fitted.bytes,
            source: fitted.source,
            fitted: fitted.fitted,
        } == fitted);
    }
}

/// The hash of one byte more is the hash so far with that byte mixed in and
/// spread; of nothing it is the offset everything starts from.
pub proof fn the_hash_takes_one_byte_at_a_time(bytes: Seq<u8>, b: u8)
    ensures
        fnv(Seq::empty()) == 14_695_981_039_346_656_037,
        fnv(bytes.push(b)) == (fnv(bytes) ^ (b as u64)).wrapping_mul(1_099_511_628_211),
{
    assert(bytes.push(b).drop_last() =~= bytes);
}

/// A name's hue is its hash around a circle that lacks a third: every hue
/// outside the banned arc stands for one place on it, in order.
pub proof fn the_hue_skips_the_banned_arc(name: Seq<u8>)
    ensures
        hue_of(name) < 210 ==> fnv(name) as int % 240 == hue_of(name),
        hue_of(name) >= 210 ==> fnv(name) as int % 240 == hue_of(name) - 120,
        0 <= hue_of(name) < 210 || 330 <= hue_of(name) < 360,
{
}

/// A hue's color: of the three channels one is full, one has nothing of the
/// hue, and the third stands between them as far as the hue is from the
/// nearest pure one, to the nearest whole number.
pub proof fn a_hue_is_a_color(hue: int, up: int)
    requires
        0 <= hue < 360,
        0 <= up <= 60,
        up == hue % 120 || up == 120 - hue % 120,
    ensures
        ({
            let (r, g, b) = disc_of(hue);
            let near = |c: int| -250 <= 2 * (250 * c - 2 * (7140 + 102 * up)) <= 250;
            &&& hue <= 60 || hue >= 300 ==> r == 106
            &&& 60 <= hue <= 180 ==> g == 106
            &&& 180 <= hue <= 300 ==> b == 106
            &&& hue <= 120 ==> b == 57
            &&& 120 <= hue <= 240 ==> r == 57
            &&& hue >= 240 ==> g == 57
            &&& hue < 60 || 180 <= hue < 240 ==> near(g)
            &&& 60 <= hue < 120 || 240 <= hue < 300 ==> near(r)
            &&& 120 <= hue < 180 || hue >= 300 ==> near(b)
        }),
{
}

proof fn lemma_word_start(s: Seq<char>, from: int)
    requires
        0 <= from <= s.len(),
    ensures
        from <= word_start(s, from) <= s.len(),
        forall|i: int| from <= i < word_start(s, from) ==> white_space(#[trigger] s[i]),
        word_start(s, from) < s.len() ==> !white_space(s[word_start(s, from)]),
    decreases s.len() - from,
{
    if from < s.len() && white_space(s[from]) {
        lemma_word_start(s, from + 1);
    }
}

proof fn lemma_word_end(s: Seq<char>, from: int)
    requires
        0 <= from <= s.len(),
    ensures
        from <= word_end(s, from) <= s.len(),
        forall|i: int| from <= i < word_end(s, from) ==> !white_space(#[trigger] s[i]),
        word_end(s, from) < s.len() ==> white_space(s[word_end(s, from)]),
    decreases s.len() - from,
{
    if from < s.len() && !white_space(s[from]) {
        lemma_word_end(s, from + 1);
    }
}

/// A name of two words or more is stood for by the first letter of the first
/// and the first of the second. `i`, `e` and `j` are where the first word
/// begins and ends and the second begins.
pub proof fn two_words_give_their_first_letters(name: Seq<char>, i: int, e: int, j: int)
    requires
        0 <= i < e < j < name.len(),
        forall|k: int| 0 <= k < i ==> white_space(#[trigger] name[k]),
        forall|k: int| i <= k < e ==> !white_space(#[trigger] name[k]),
        forall|k: int| e <= k < j ==> white_space(#[trigger] name[k]),
        !white_space(name[j]),
    ensures
        letters_of(name) == seq![name[i], name[j]],
{
    lemma_word_start(name, 0);
    let first = word_start(name, 0);
    assert(first == i) by {
        if first < i {
            assert(white_space(name[first]));
        }
        if i < first {
            assert(white_space(name[i]));
        }
    }
    lemma_word_end(name, i);
    let end = word_end(name, i);
    assert(end == e) by {
        if end < e {
            assert(!white_space(name[end]));
        }
        if e < end {
            assert(white_space(name[e]));
        }
    }
    lemma_word_start(name, e);
    let second = word_start(name, e);
    assert(second == j) by {
        if second < j {
            assert(white_space(name[second]));
        }
        if j < second {
            assert(white_space(name[j]));
        }
    }
}

/// A lone word is stood for by its first two letters, or by the one it has;
/// white space alone by none. `i` and `e` are where the word begins and ends.
pub proof fn a_lone_word_gives_its_first_two(name: Seq<char>, i: int, e: int)
    requires
        0 <= i <= e <= name.len(),
        forall|k: int| 0 <= k < i ==> white_space(#[trigger] name[k]),
        forall|k: int| i <= k < e ==> !white_space(#[trigger] name[k]),
        forall|k: int| e <= k < name.len() ==> white_space(#[trigger] name[k]),
    ensures
        i == e ==> letters_of(name).len() == 0 && initials_of(name) == seq!['?'],
        e == i + 1 ==> letters_of(name) == seq![name[i]],
        e > i + 1 ==> letters_of(name) == seq![name[i], name[i + 1]],
{
    lemma_word_start(name, 0);
    let first = word_start(name, 0);
    if i == e {
        assert(first == name.len()) by {
            if first < name.len() {
                assert(white_space(name[first]));
            }
        }
    } else {
        assert(first == i) by {
            if first < i {
                assert(white_space(name[first]));
            }
            if i < first {
                assert(white_space(name[i]));
            }
        }
        lemma_word_end(name, i);
        let end = word_end(name, i);
        assert(end == e) by {
            if end < e {
                assert(!white_space(name[end]));
            }
            if e < end {
                assert(white_space(name[e]));
            }
        }
        lemma_word_start(name, e);
        let second = word_start(name, e);
        if second < name.len() {
            assert(white_space(name[second]));
        }
    }
}

/// What stands on a disc is its letters in upper case, one after another.
pub proof fn initials_are_capitals(letters: Seq<char>, c: char, name: Seq<char>)
    ensures
        in_capitals(Seq::empty()).len() == 0,
        in_capitals(letters.push(c)) == in_capitals(letters) + uppercase(c),
        in_capitals(letters_of(name)).len() > 0 ==> initials_of(name) == in_capitals(
            letters_of(name),
        ),
{
    assert(letters.push(c).drop_last() =~= letters);
}

/// A refusal and a picture are what contracts take them for, part for part.
pub proof fn a_picture_is_read_part_for_part(
    refusal: AvatarError,
    fitted: Fitted,
    picture: Picture,
)
    ensures
        match refusal {
            AvatarError::Empty => refusal.deep_view() is Empty,
            AvatarError::TooManyBytes(n) => refusal.deep_view()
                == AvatarErrorModel::TooManyBytes(n),
            AvatarError::NotPngOrJpeg => refusal.deep_view() is NotPngOrJpeg,
            AvatarError::TooLarge { width, height } => refusal.deep_view() == (
            AvatarErrorModel::TooLarge { width, height }),
            AvatarError::TooManyPixels { width, height } => refusal.deep_view() == (
            AvatarErrorModel::TooManyPixels { width, height }),
            AvatarError::Decode(reason) => refusal.deep_view() == AvatarErrorModel::Decode(
                reason@,
            ),
            AvatarError::Encode(reason) => refusal.deep_view() == AvatarErrorModel::Encode(
                reason@,
            ),
        },
        fitted.deep_view().bytes == fitted.bytes@,
        fitted.deep_view().source == fitted.source,
        fitted.deep_view().fitted == fitted.fitted,
        picture.deep_view().file == picture.file@,
        picture.deep_view().source == picture.source,
        picture.deep_view().fitted == picture.fitted,
        picture.deep_view().bytes == picture.bytes@,
        picture.deep_view().handle == picture.handle.deep_view(),
{
}

/// A file that cutting gives is the encoding of the square a picture was cut
/// and smoothly scaled to.
pub proof fn a_cut_is_the_square_encoded(bytes: Seq<u8>, side: u32, file: Seq<u8>)
    requires
        cut_may_be(bytes, side, Ok::<Seq<u8>, AvatarErrorModel>(file)),
    ensures
        exists|rgba: Seq<u8>|
            #[trigger] encoded(rgba, side) == Ok::<Seq<u8>, AvatarErrorModel>(file)
                && square_may_be(
                bytes,
                400_000_000,
                side,
                Scaling::Lanczos3,
                Ok::<Seq<u8>, Seq<char>>(rgba),
            ),
{
    let made = Ok::<Seq<u8>, AvatarErrorModel>(file);
    let pixels = choose|pixels: Result<Seq<u8>, Seq<char>>| #[trigger]
        square_may_be(bytes, SOURCE_ALLOC, side, Scaling::Lanczos3, pixels) && (match pixels {
            Ok(rgba) => made == encoded(rgba, side) && reads_back(file, side, rgba),
            Err(reason) => made == Err::<Seq<u8>, AvatarErrorModel>(
                AvatarErrorModel::Decode(reason),
            ),
        });
    if let Ok(rgba) = pixels {
        assert(encoded(rgba, side) == made);
    }
}

/// Where cutting gives no file, either the picture could not be cut to a
/// square, and the reason is passed on, or the square could not be encoded,
/// and the refusal is the encoding's own.
pub proof fn a_cut_is_refused_for_what_failed(bytes: Seq<u8>, side: u32, refusal: AvatarErrorModel)
    requires
        cut_may_be(bytes, side, Err::<Seq<u8>, AvatarErrorModel>(refusal)),
    ensures
        exists|pixels: Result<Seq<u8>, Seq<char>>| #[trigger]
            square_may_be(bytes, 400_000_000, side, Scaling::Lanczos3, pixels) && (
            pixels is Err ==> refusal == AvatarErrorModel::Decode(pixels->Err_0)) && (
            pixels is Ok ==> encoded(pixels->Ok_0, side) == Err::<Seq<u8>, AvatarErrorModel>(
                refusal,
            )),
{
    let made = Err::<Seq<u8>, AvatarErrorModel>(refusal);
    let pixels = choose|pixels: Result<Seq<u8>, Seq<char>>| #[trigger]
        square_may_be(bytes, SOURCE_ALLOC, side, Scaling::Lanczos3, pixels) && (match pixels {
            Ok(rgba) => made == encoded(rgba, side),
            Err(reason) => made == Err::<Seq<u8>, AvatarErrorModel>(
                AvatarErrorModel::Decode(reason),
            ),
        });
    assert(square_may_be(bytes, 400_000_000, side, Scaling::Lanczos3, pixels));
}

} // verus!
