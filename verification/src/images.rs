use vstd::prelude::*;

use crate::info::Kind;
use crate::AjazzError;

verus! {

/// Image rotation
#[derive(Copy, Clone, Debug, Hash)]
pub enum ImageRotation {
    /// No rotation
    Rot0,
    /// 90 degrees clockwise
    Rot90,
    /// 180 degrees
    Rot180,
    /// 90 degrees counter-clockwise
    Rot270,
}

/// Image mirroring
#[derive(Copy, Clone, Debug, Hash)]
pub enum ImageMirroring {
    /// No image mirroring
    NoMirror,
    /// Flip by X
    X,
    /// Flip by Y
    Y,
    /// Flip by both axes
    Both,
}

/// Image format
#[derive(Copy, Clone, Debug, Hash)]
pub enum ImageMode {
    /// No image
    NoImage,
    /// Jpeg image
    JPEG,
}

/// Image format used by the device
#[derive(Copy, Clone, Debug, Hash)]
pub struct ImageFormat {
    /// Image format/mode
    pub mode: ImageMode,
    /// Image size
    pub size: (usize, usize),
    /// Image rotation
    pub rotation: ImageRotation,
    /// Image mirroring
    pub mirror: ImageMirroring,
}

impl Default for ImageFormat {
    fn default() -> (r: Self)
        ensures
            r == (ImageFormat {
                mode: ImageMode::NoImage,
                size: (0, 0),
                rotation: ImageRotation::Rot0,
                mirror: ImageMirroring::NoMirror,
            }),
    {
        Self {
            mode: ImageMode::NoImage,
            size: (0, 0),
            rotation: ImageRotation::Rot0,
            mirror: ImageMirroring::NoMirror,
        }
    }
}

/// An image of RGB pixels, three bytes (red, green, blue) per pixel, row by
/// row from the top left corner.
pub struct Rgb8Image {
    /// Width of the image in pixels
    pub width: u32,
    /// Height of the image in pixels
    pub height: u32,
    /// The pixel bytes
    pub pixels: Vec<u8>,
}

impl Rgb8Image {
    /// The pixel bytes are exactly those of `width` times `height` pixels.
    pub open spec fn wf(&self) -> bool {
        self.pixels@.len() == self.width as int * self.height as int * 3
    }

    /// Creates an image from its size and pixel bytes, if the bytes are exactly
    /// those of `width` times `height` pixels.
    pub fn new(width: u32, height: u32, pixels: Vec<u8>) -> (r: Option<Rgb8Image>)
        ensures
            r is Some <==> pixels@.len() == width as int * height as int * 3,
            r matches Some(image) ==> image.wf() && image.width == width && image.height
                == height && image.pixels@ == pixels@,
    {
        assert((width as u128) * (height as u128) * 3 <= u128::MAX) by (nonlinear_arith);
        let needed: u128 = (width as u128) * (height as u128) * 3;
        if pixels.len() as u128 == needed {
            Some(Rgb8Image { width, height, pixels })
        } else {
            None
        }
    }
}

/// The pixel bytes of a `w` x `h` image whose pixel at column `x` and row `y`
/// is the pixel of `src` (an image `src_w` pixels wide) at position `from(x, y)`.
pub open spec fn remapped(
    w: int,
    h: int,
    src: Seq<u8>,
    src_w: int,
    from: spec_fn(int, int) -> (int, int),
) -> Seq<u8> {
    Seq::new(
        (w * h * 3) as nat,
        |i: int|
            {
                let (x, y) = from((i / 3) % w, (i / 3) / w);
                src[(y * src_w + x) * 3 + i % 3]
            },
    )
}

/// A `w` x `h` image turned a quarter turn clockwise.
pub open spec fn rotated_90(w: int, h: int, px: Seq<u8>) -> Seq<u8> {
    remapped(h, w, px, w, |x: int, y: int| (y, h - 1 - x))
}

/// A `w` x `h` image turned half a turn.
pub open spec fn rotated_180(w: int, h: int, px: Seq<u8>) -> Seq<u8> {
    remapped(w, h, px, w, |x: int, y: int| (w - 1 - x, h - 1 - y))
}

/// A `w` x `h` image turned three quarter turns clockwise.
pub open spec fn rotated_270(w: int, h: int, px: Seq<u8>) -> Seq<u8> {
    remapped(h, w, px, w, |x: int, y: int| (w - 1 - y, x))
}

/// A `w` x `h` image mirrored left to right.
pub open spec fn flipped_horizontally(w: int, h: int, px: Seq<u8>) -> Seq<u8> {
    remapped(w, h, px, w, |x: int, y: int| (w - 1 - x, y))
}

/// A `w` x `h` image mirrored top to bottom.
pub open spec fn flipped_vertically(w: int, h: int, px: Seq<u8>) -> Seq<u8> {
    remapped(w, h, px, w, |x: int, y: int| (x, h - 1 - y))
}

/// The pixel bytes that `image::imageops::resize` with the triangle filter
/// gives for a `width` x `height` image resized to `new_width` x `new_height`.
pub uninterp spec fn triangle_resized(
    pixels: Seq<u8>,
    width: u32,
    height: u32,
    new_width: u32,
    new_height: u32,
) -> Seq<u8>;

/// The JPEG file that `image::codecs::jpeg::JpegEncoder` writes for a
/// `width` x `height` RGB image at the given quality.
pub uninterp spec fn jpeg_encoding(pixels: Seq<u8>, width: u32, height: u32, quality: u8) -> Seq<u8>;

/// The sizes that a JPEG file can describe.
pub open spec fn jpeg_size_ok(width: u32, height: u32) -> bool {
    1 <= width <= 65535 && 1 <= height <= 65535
}

/// The buffers that resizing allocates fit in memory: the result, and, where
/// the source has pixels and a size other than the new one, the intermediate
/// image of four 32-bit floats per pixel.
pub open spec fn resize_fits(width: u32, height: u32, new_width: u32, new_height: u32) -> bool {
    &&& new_width as int * new_height as int * 3 <= isize::MAX as int
    &&& (width == 0 || height == 0 || (width == new_width && height == new_height)
        || width as int * new_height as int * 16 <= isize::MAX as int)
}

/// Whether resizing a `width` x `height` image to `new_width` x `new_height`
/// fits in memory
pub fn resize_fits_in_memory(width: u32, height: u32, new_width: u32, new_height: u32) -> (r: bool)
    ensures
        r == resize_fits(width, height, new_width, new_height),
{
    assert((width as u128) * (new_height as u128) * 16 <= u128::MAX) by (nonlinear_arith);
    assert((new_width as u128) * (new_height as u128) * 3 <= u128::MAX) by (nonlinear_arith);
    let limit: u128 = isize::MAX as u128;
    let result_fits = (new_width as u128) * (new_height as u128) * 3 <= limit;
    let no_intermediate = width == 0 || height == 0 || (width == new_width && height
        == new_height);
    result_fits && (no_intermediate || (width as u128) * (new_height as u128) * 16 <= limit)
}

impl ImageFormat {
    /// Whether turning and resizing a `width` x `height` image to this format
    /// fits in memory
    pub fn fits_image(&self, width: u32, height: u32) -> (r: bool)
        ensures
            r == transform_fits(*self, width, height),
    {
        let (rw, rh) = match self.rotation {
            ImageRotation::Rot90 | ImageRotation::Rot270 => (height, width),
            _ => (width, height),
        };
        resize_fits_in_memory(rw, rh, self.size.0 as u32, self.size.1 as u32)
    }
}

/// `image::imageops::rotate90`: the image turned a quarter turn clockwise.
#[verifier::external_body]
fn rotate90(img: Rgb8Image) -> (r: Rgb8Image)
    requires
        img.wf(),
    ensures
        r.wf(),
        r.width == img.height,
        r.height == img.width,
        r.pixels@ == rotated_90(img.width as int, img.height as int, img.pixels@),
{
    let buffer = image::RgbImage::from_raw(img.width, img.height, img.pixels).unwrap();
    let out = image::imageops::rotate90(&buffer);
    Rgb8Image { width: out.width(), height: out.height(), pixels: out.into_raw() }
}

/// `image::imageops::rotate180`: the image turned half a turn.
#[verifier::external_body]
fn rotate180(img: Rgb8Image) -> (r: Rgb8Image)
    requires
        img.wf(),
    ensures
        r.wf(),
        r.width == img.width,
        r.height == img.height,
        r.pixels@ == rotated_180(img.width as int, img.height as int, img.pixels@),
{
    let buffer = image::RgbImage::from_raw(img.width, img.height, img.pixels).unwrap();
    let out = image::imageops::rotate180(&buffer);
    Rgb8Image { width: out.width(), height: out.height(), pixels: out.into_raw() }
}

/// `image::imageops::rotate270`: the image turned three quarter turns clockwise.
#[verifier::external_body]
fn rotate270(img: Rgb8Image) -> (r: Rgb8Image)
    requires
        img.wf(),
    ensures
        r.wf(),
        r.width == img.height,
        r.height == img.width,
        r.pixels@ == rotated_270(img.width as int, img.height as int, img.pixels@),
{
    let buffer = image::RgbImage::from_raw(img.width, img.height, img.pixels).unwrap();
    let out = image::imageops::rotate270(&buffer);
    Rgb8Image { width: out.width(), height: out.height(), pixels: out.into_raw() }
}

/// `image::imageops::flip_horizontal`: the image mirrored left to right.
#[verifier::external_body]
fn flip_horizontal(img: Rgb8Image) -> (r: Rgb8Image)
    requires
        img.wf(),
    ensures
        r.wf(),
        r.width == img.width,
        r.height == img.height,
        r.pixels@ == flipped_horizontally(img.width as int, img.height as int, img.pixels@),
{
    let buffer = image::RgbImage::from_raw(img.width, img.height, img.pixels).unwrap();
    let out = image::imageops::flip_horizontal(&buffer);
    Rgb8Image { width: out.width(), height: out.height(), pixels: out.into_raw() }
}

/// `image::imageops::flip_vertical`: the image mirrored top to bottom.
#[verifier::external_body]
fn flip_vertical(img: Rgb8Image) -> (r: Rgb8Image)
    requires
        img.wf(),
    ensures
        r.wf(),
        r.width == img.width,
        r.height == img.height,
        r.pixels@ == flipped_vertically(img.width as int, img.height as int, img.pixels@),
{
    let buffer = image::RgbImage::from_raw(img.width, img.height, img.pixels).unwrap();
    let out = image::imageops::flip_vertical(&buffer);
    Rgb8Image { width: out.width(), height: out.height(), pixels: out.into_raw() }
}

/// `image::imageops::resize` with the triangle filter: an image of exactly the
/// new size, whose pixels are named by [`triangle_resized`]; resizing to the
/// size the image already has copies it.
#[verifier::external_body]
fn resize_exact(img: Rgb8Image, new_width: u32, new_height: u32) -> (r: Rgb8Image)
    requires
        img.wf(),
        resize_fits(img.width, img.height, new_width, new_height),
    ensures
        r.wf(),
        r.width == new_width,
        r.height == new_height,
        r.pixels@ == triangle_resized(img.pixels@, img.width, img.height, new_width, new_height),
        new_width == img.width && new_height == img.height ==> r.pixels@ == img.pixels@,
{
    let buffer = image::RgbImage::from_raw(img.width, img.height, img.pixels).unwrap();
    let filter = image::imageops::FilterType::Triangle;
    let out = image::imageops::resize(&buffer, new_width, new_height, filter);
    Rgb8Image { width: out.width(), height: out.height(), pixels: out.into_raw() }
}

/// `image::codecs::jpeg::JpegEncoder::encode` of an RGB image into a byte
/// vector at the given quality: the file named by [`jpeg_encoding`]; an error
/// exactly when a side of the image is zero or longer than a JPEG can describe.
#[verifier::external_body]
fn encode_jpeg(img: &Rgb8Image, quality: u8) -> (r: Result<Vec<u8>, image::ImageError>)
    requires
        img.wf(),
    ensures
        r is Ok <==> jpeg_size_ok(img.width, img.height),
        r matches Ok(bytes) ==> bytes@ == jpeg_encoding(img.pixels@, img.width, img.height, quality),
{
    let mut buf = Vec::new();
    let color = image::ExtendedColorType::Rgb8;
    let res = image::codecs::jpeg::JpegEncoder::new_with_quality(&mut buf, quality)
        .encode(&img.pixels, img.width, img.height, color);
    match res {
        Ok(()) => Ok(buf),
        Err(e) => Err(e),
    }
}

/// The size of an image after a rotation.
pub open spec fn rotated_size(rotation: ImageRotation, width: u32, height: u32) -> (u32, u32) {
    match rotation {
        ImageRotation::Rot90 | ImageRotation::Rot270 => (height, width),
        _ => (width, height),
    }
}

/// The pixels of a `width` x `height` image after a rotation.
pub open spec fn rotated_pixels(rotation: ImageRotation, width: u32, height: u32, px: Seq<u8>) -> Seq<u8> {
    match rotation {
        ImageRotation::Rot0 => px,
        ImageRotation::Rot90 => rotated_90(width as int, height as int, px),
        ImageRotation::Rot180 => rotated_180(width as int, height as int, px),
        ImageRotation::Rot270 => rotated_270(width as int, height as int, px),
    }
}

/// The pixels of a `width` x `height` image after mirroring.
pub open spec fn mirrored_pixels(mirror: ImageMirroring, width: u32, height: u32, px: Seq<u8>) -> Seq<u8> {
    match mirror {
        ImageMirroring::NoMirror => px,
        ImageMirroring::X => flipped_horizontally(width as int, height as int, px),
        ImageMirroring::Y => flipped_vertically(width as int, height as int, px),
        ImageMirroring::Both => flipped_vertically(
            width as int,
            height as int,
            flipped_horizontally(width as int, height as int, px),
        ),
    }
}

/// The width and height that a format's size gives the image, each taken as a `u32`.
pub open spec fn target_size(format: ImageFormat) -> (u32, u32) {
    (format.size.0 as u32, format.size.1 as u32)
}

/// The pixels of a `width` x `height` image once turned, resized to the
/// format's size and mirrored as the format says.
pub open spec fn transformed_pixels(format: ImageFormat, width: u32, height: u32, px: Seq<u8>) -> Seq<u8> {
    let (rw, rh) = rotated_size(format.rotation, width, height);
    let (tw, th) = target_size(format);
    mirrored_pixels(
        format.mirror,
        tw,
        th,
        triangle_resized(rotated_pixels(format.rotation, width, height, px), rw, rh, tw, th),
    )
}

/// Turning and resizing a `width` x `height` image to the format fits in memory.
pub open spec fn transform_fits(format: ImageFormat, width: u32, height: u32) -> bool {
    let (rw, rh) = rotated_size(format.rotation, width, height);
    let (tw, th) = target_size(format);
    resize_fits(rw, rh, tw, th)
}

/// Turns, resizes and mirrors an image as the format says
pub fn transform_image(image_format: &ImageFormat, image: Rgb8Image) -> (r: Rgb8Image)
    requires
        image.wf(),
        transform_fits(*image_format, image.width, image.height),
    ensures
        r.wf(),
        (r.width, r.height) == target_size(*image_format),
        r.pixels@ == transformed_pixels(*image_format, image.width, image.height, image.pixels@),
{
    // Ensuring size of the image
    let (ws, hs) = image_format.size;

    // Applying rotation
    let image = match image_format.rotation {
        ImageRotation::Rot0 => image,
        ImageRotation::Rot90 => rotate90(image),
        ImageRotation::Rot180 => rotate180(image),
        ImageRotation::Rot270 => rotate270(image),
    };

    let image = resize_exact(image, ws as u32, hs as u32);

    // Applying mirroring
    match image_format.mirror {
        ImageMirroring::NoMirror => image,
        ImageMirroring::X => flip_horizontal(image),
        ImageMirroring::Y => flip_vertical(image),
        ImageMirroring::Both => flip_vertical(flip_horizontal(image)),
    }
}

/// Converts image into image data depending on provided image format
pub fn convert_image_with_format(image_format: ImageFormat, image: Rgb8Image) -> (r: Result<
    Vec<u8>,
    image::ImageError,
>)
    requires
        image.wf(),
        transform_fits(image_format, image.width, image.height),
    ensures
        image_format.mode is NoImage ==> (r matches Ok(bytes) && bytes@.len() == 0),
        image_format.mode is JPEG ==> {
            let (tw, th) = target_size(image_format);
            &&& r is Ok <==> jpeg_size_ok(tw, th)
            &&& r matches Ok(bytes) ==> bytes@ == jpeg_encoding(
                transformed_pixels(image_format, image.width, image.height, image.pixels@),
                tw,
                th,
                90,
            )
        },
{
    let image = transform_image(&image_format, image);

    // Encoding image
    match image_format.mode {
        ImageMode::NoImage => Ok(Vec::new()),
        ImageMode::JPEG => encode_jpeg(&image, 90),
    }
}

/// Converts image into image data depending on provided kind of device
pub fn convert_image(kind: Kind, image: Rgb8Image) -> (r: Result<Vec<u8>, image::ImageError>)
    requires
        image.wf(),
        transform_fits(kind.key_image_format(), image.width, image.height),
    ensures
        ({
            let format = kind.key_image_format();
            let (tw, th) = target_size(format);
            &&& r is Ok
            &&& r matches Ok(bytes) ==> bytes@ == jpeg_encoding(
                transformed_pixels(format, image.width, image.height, image.pixels@),
                tw,
                th,
                90,
            )
        }),
{
    convert_image_with_format(kind.key_image_format(), image)
}

/// Maximum boot-logo JPEG size accepted by the Mad Dog GK150W firmware.
///
/// The official app rejects larger payloads: the device does not ACK the
/// write and the old logo stays in flash.
pub const MAD_DOG_GK150W_LOGO_MAX_BYTES: usize = 0x7f800;

/// The lowest JPEG quality that the Mad Dog GK150W boot logo is tried at.
pub const MAD_DOG_GK150W_LOGO_MIN_QUALITY: u8 = 60;

/// What to do with a boot logo payload encoded at some quality.
#[derive(Copy, Clone, Debug, PartialEq, Eq, Structural)]
pub enum LogoStep {
    /// The payload fits: send it
    Accept,
    /// The payload is too large even at the lowest quality
    Reject,
    /// The payload is too large: encode again at a lower quality
    Retry,
}

/// What to do with a boot logo payload of `payload_len` bytes encoded at `quality`.
pub open spec fn logo_step(payload_len: int, quality: u8) -> LogoStep {
    if payload_len <= MAD_DOG_GK150W_LOGO_MAX_BYTES {
        LogoStep::Accept
    } else if quality <= MAD_DOG_GK150W_LOGO_MIN_QUALITY {
        LogoStep::Reject
    } else {
        LogoStep::Retry
    }
}

/// Decides what to do with a boot logo payload of `payload_len` bytes encoded at `quality`
pub fn next_logo_step(payload_len: usize, quality: u8) -> (r: LogoStep)
    ensures
        r == logo_step(payload_len as int, quality),
{
    if payload_len <= MAD_DOG_GK150W_LOGO_MAX_BYTES || quality <= MAD_DOG_GK150W_LOGO_MIN_QUALITY {
        if payload_len > MAD_DOG_GK150W_LOGO_MAX_BYTES {
            return LogoStep::Reject;
        }
        return LogoStep::Accept;
    }
    LogoStep::Retry
}

/// The pixels of the boot logo screen: the image resized to 854 x 480 and
/// turned three quarter turns clockwise, so 480 pixels wide and 854 high.
pub open spec fn logo_pixels(image: Rgb8Image) -> Seq<u8> {
    rotated_270(854, 480, triangle_resized(image.pixels@, image.width, image.height, 854, 480))
}

/// The first quality of `quality`, `quality - 10`, ... down to the lowest one
/// at which the logo pixels encode to a JPEG that the device accepts.
pub open spec fn first_fitting_quality(px: Seq<u8>, quality: u8) -> Option<u8>
    decreases quality,
{
    if jpeg_encoding(px, 480, 854, quality).len() <= MAD_DOG_GK150W_LOGO_MAX_BYTES {
        Some(quality)
    } else if quality <= MAD_DOG_GK150W_LOGO_MIN_QUALITY {
        None
    } else {
        first_fitting_quality(px, (quality - 10) as u8)
    }
}

/// `std::io::Error::new` of kind `InvalidData`, wrapped as
/// `image::ImageError::IoError`, saying that the boot logo is `len` bytes even
/// at `quality` while the device accepts at most `limit` bytes.
#[verifier::external_body]
fn logo_too_large_error(len: usize, quality: u8, limit: usize) -> image::ImageError {
    image::ImageError::IoError(
        std::io::Error::new(
            std::io::ErrorKind::InvalidData,
            format!(
                "boot logo is {} bytes even at quality {}; the device accepts at most {}",
                len,
                quality,
                limit,
            ),
        ),
    )
}

/// Converts an image to the boot logo format of the Mad Dog GK150W.
///
/// The 854x480 screen image is rotated 90° counter-clockwise (480x854) and
/// encoded as a baseline JPEG. The firmware rejects JPEGs larger than
/// [`MAD_DOG_GK150W_LOGO_MAX_BYTES`], so the encoder steps quality down from
/// 100 in increments of 10 until the payload fits.
pub fn convert_mad_dog_gk150w_logo(image: Rgb8Image) -> (r: Result<Vec<u8>, image::ImageError>)
    requires
        image.wf(),
        resize_fits(image.width, image.height, 854, 480),
    ensures
        match first_fitting_quality(logo_pixels(image), 100) {
            Some(quality) => r matches Ok(bytes) && bytes@ == jpeg_encoding(
                logo_pixels(image),
                480,
                854,
                quality,
            ),
            None => r is Err,
        },
        r matches Ok(bytes) ==> bytes@.len() <= MAD_DOG_GK150W_LOGO_MAX_BYTES,
{
    let ghost px = logo_pixels(image);
    let logo = rotate270(resize_exact(image, 854, 480));
    assert(logo.pixels@ == px);

    let mut quality: u8 = 100;
    loop
        invariant
            logo.wf(),
            logo.width == 480,
            logo.height == 854,
            logo.pixels@ == px,
            px == logo_pixels(image),
            MAD_DOG_GK150W_LOGO_MIN_QUALITY <= quality <= 100,
            quality % 10 == 0,
            first_fitting_quality(px, quality) == first_fitting_quality(px, 100),
        decreases quality,
    {
        let buf = match encode_jpeg(&logo, quality) {
            Ok(buf) => buf,
            Err(e) => {
                return Err(e);
            },
        };
        match next_logo_step(buf.len(), quality) {
            LogoStep::Accept => {
                assert(first_fitting_quality(px, quality) == Some(quality));
                return Ok(buf);
            },
            LogoStep::Reject => {
                assert(first_fitting_quality(px, quality) is None);
                return Err(logo_too_large_error(buf.len(), quality, MAD_DOG_GK150W_LOGO_MAX_BYTES));
            },
            LogoStep::Retry => {
                assert(first_fitting_quality(px, quality) == first_fitting_quality(
                    px,
                    (quality - 10) as u8,
                ));
                quality = quality - 10;
            },
        }
    }
}

/// Rect to be used when trying to send image to lcd screen
pub struct ImageRect {
    /// Width of the image
    pub w: u16,
    /// Height of the image
    pub h: u16,
    /// Data of the image row by row as RGB
    pub data: Vec<u8>,
}

/// The three bytes (red, green, blue) of the pixel at column `x` and row `y`
/// of RGB data laid out row by row, `width` pixels to a row.
pub open spec fn rgb_at(data: Seq<u8>, width: int, x: int, y: int) -> Seq<u8> {
    data.subrange(3 * (y * width + x), 3 * (y * width + x) + 3)
}

impl ImageRect {
    /// The rect holds `w` x `h` pixels of RGB data, row by row.
    pub open spec fn wf(&self) -> bool {
        self.data@.len() == 3 * (self.w as int) * (self.h as int)
    }

    /// Converts image to image rect, keeping its pixels row by row as RGB.
    ///
    /// The JPEG encoder settles which sizes a rect can have (sides of 1 to
    /// 65535 pixels); for any other size its error is returned.
    pub fn from_image(image: Rgb8Image) -> (r: Result<ImageRect, AjazzError>)
        requires
            image.wf(),
        ensures
            r is Ok <==> jpeg_size_ok(image.width, image.height),
            r matches Ok(rect) ==> {
                &&& rect.wf()
                &&& rect.w == image.width
                &&& rect.h == image.height
                &&& rect.data@ == image.pixels@
                &&& forall|x: int, y: int|
                    0 <= x < rect.w && 0 <= y < rect.h ==> #[trigger] rgb_at(
                        rect.data@,
                        rect.w as int,
                        x,
                        y,
                    ) == rgb_at(image.pixels@, image.width as int, x, y)
            },
            r matches Err(e) ==> e is ImageError,
    {
        let image_w = image.width;
        let image_h = image.height;
        if let Err(e) = encode_jpeg(&image, 90) {
            return Err(AjazzError::ImageError(e));
        }
        let rect = ImageRect { w: image_w as u16, h: image_h as u16, data: image.pixels };
        assert(rect.wf()) by (nonlinear_arith)
            requires
                rect.data@.len() == image_w as int * image_h as int * 3,
                rect.w as int == image_w as int,
                rect.h as int == image_h as int,
        ;
        Ok(rect)
    }
}

/// Sizes of the reports that carry image data to a device.
#[derive(Clone, Copy)]
pub struct WriteImageParameters {
    /// Length of a whole report
    pub image_report_length: usize,
    /// Length of the image data in a report, after its one byte header
    pub image_report_payload_length: usize,
}

impl WriteImageParameters {
    /// The report length that a kind's protocol uses for image data.
    pub open spec fn report_length(kind: Kind) -> usize {
        if kind.is_v1_api() {
            513
        } else if kind.is_v2_api() {
            1025
        } else {
            1024
        }
    }

    /// The image report sizes of a device kind
    pub fn for_kind(kind: Kind) -> (r: Self)
        ensures
            r.image_report_length == Self::report_length(kind),
            r.image_report_payload_length == r.image_report_length - 1,
    {
        let image_report_length: usize = if kind.is_v1_api() {
            513
        } else if kind.is_v2_api() {
            1025
        } else {
            1024
        };

        let image_report_header_length: usize = 1;
        let image_report_payload_length: usize = image_report_length - image_report_header_length;

        Self { image_report_length, image_report_payload_length }
    }
}

/// Image reports are 513 bytes long on the protocol v1 devices (AKP153,
/// AKP153E, AKP153R, Mad Dog GK150W, AKP815) and 1025 on the AKP03 family, one
/// byte of each being the header.
pub proof fn image_report_sizes(kind: Kind)
    ensures
        kind is Akp153 || kind is Akp153E || kind is Akp153R || kind is MadDogGk150W
            || kind is Akp815 ==> WriteImageParameters::report_length(kind) == 513,
        kind is Akp03 || kind is Akp03E || kind is Akp03R || kind is Akp03RRev2
            ==> WriteImageParameters::report_length(kind) == 1025,
{
}

/// The boot logo is tried at qualities 100, 90, 80, 70 and 60 in that order,
/// and the first whose JPEG is at most 522240 (0x7f800) bytes is taken; when
/// none is that small, none is taken.
pub proof fn logo_quality_search(px: Seq<u8>)
    ensures
        ({
            let fits = |q: u8| jpeg_encoding(px, 480, 854, q).len() <= 522240;
            first_fitting_quality(px, 100) == if fits(100) {
                Some(100u8)
            } else if fits(90) {
                Some(90u8)
            } else if fits(80) {
                Some(80u8)
            } else if fits(70) {
                Some(70u8)
            } else if fits(60) {
                Some(60u8)
            } else {
                None
            }
        }),
{
    reveal_with_fuel(first_fitting_quality, 5);
}

} // verus!
