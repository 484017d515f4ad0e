//! Pixel buffers of rendered strokes: checking them, converting them to RGBA,
//! overlaying them into one image and encoding them.
//!
//! An image here holds its pixel data and dimensions; where it lies on the sheet
//! is kept by the caller.

use image::{DynamicImage, ImageFormat, RgbaImage};
use vstd::prelude::*;

verus! {

/// The memory format of the pixel data: four bytes per pixel, premultiplied alpha.
#[derive(Clone, Copy, Debug, PartialEq, Eq, Structural)]
pub enum ImageMemoryFormat {
    R8g8b8a8Premultiplied,
    B8g8r8a8Premultiplied,
}

/// Pixel data of a rendered image.
#[derive(Debug)]
pub struct Image {
    pub data: Vec<u8>,
    /// width of the data, in pixels
    pub pixel_width: u32,
    /// height of the data, in pixels
    pub pixel_height: u32,
    pub memory_format: ImageMemoryFormat,
}

/// An RGBA pixel buffer: `data` holds at least four bytes for each of the
/// `width * height` pixels, row by row.
#[derive(Debug)]
pub struct RgbaBuffer {
    pub width: u32,
    pub height: u32,
    pub data: Vec<u8>,
}

/// The formats an image is encoded to.
#[derive(Clone, Copy, Debug, PartialEq, Eq, Structural)]
pub enum ImageOutputFormat {
    Png,
    Jpeg,
    Bmp,
}

/// Why an image operation failed.
#[derive(Clone, Copy, Debug, PartialEq, Eq, Structural)]
pub enum ImageError {
    /// the data is too short for the dimensions
    BufferTooSmall,
    /// the data does not hold exactly four bytes per pixel, or the width is zero
    InvalidImageData,
    /// the encoder refused the image
    EncodingFailed,
}

/// The number of bytes of `width * height` pixels of four bytes each.
pub open spec fn rgba_len(width: u32, height: u32) -> int {
    4 * width * height
}

/// Whether a buffer of `len` bytes holds `width * height` pixels of four bytes each
/// (`ImageBuffer::from_raw`: the byte count must not overflow `usize`).
pub open spec fn buffer_fits(width: u32, height: u32, len: int) -> bool {
    rgba_len_fits(width, height) && rgba_len(width, height) <= len
}

/// Whether the byte count of `width * height` pixels, computed as four times the
/// width, then times the height, does not overflow `usize`.
pub open spec fn rgba_len_fits(width: u32, height: u32) -> bool {
    4 * width <= usize::MAX && rgba_len(width, height) <= usize::MAX
}

/// The first `pixels` pixels of BGRA data, with blue and red swapped to RGBA.
pub open spec fn bgra_to_rgba(data: Seq<u8>, pixels: int) -> Seq<u8> {
    Seq::new((4 * pixels) as nat, |i: int| {
        let c = i % 4;
        if c == 0 {
            data[i + 2]
        } else if c == 2 {
            data[i - 2]
        } else {
            data[i]
        }
    })
}

/// What `image::imageops::overlay` leaves in the bottom RGBA buffer after blending
/// the top RGBA buffer into it at the offset `(x, y)`.
pub uninterp spec fn overlay_pixels(
    bottom_width: u32,
    bottom_height: u32,
    bottom: Seq<u8>,
    top_width: u32,
    top_height: u32,
    top: Seq<u8>,
    x: i64,
    y: i64,
) -> Seq<u8>;

/// What `DynamicImage::write_to` writes for an RGBA buffer in the given format;
/// `None` when it returns an error.
pub uninterp spec fn encoded_image(width: u32, height: u32, data: Seq<u8>, format: ImageOutputFormat) -> Option<Seq<u8>>;

/// `image::imageops::overlay` on two RGBA buffers built with `ImageBuffer::from_raw`,
/// handing back the bottom buffer's data (`into_raw`). `overlay` only writes pixels
/// inside the bottom buffer, so its data keeps its length.
#[verifier::external_body]
fn overlay_rgba(bottom: RgbaBuffer, top: &RgbaBuffer, x: i64, y: i64) -> (res: Vec<u8>)
    requires
        buffer_fits(bottom.width, bottom.height, bottom.data.len() as int),
        bottom.data.len() == rgba_len(bottom.width, bottom.height),
        buffer_fits(top.width, top.height, top.data.len() as int),
    ensures
        res@ == overlay_pixels(bottom.width, bottom.height, bottom.data@, top.width, top.height, top.data@, x, y),
        res@.len() == bottom.data@.len(),
{
    let mut b = RgbaImage::from_raw(bottom.width, bottom.height, bottom.data).unwrap();
    let t = RgbaImage::from_raw(top.width, top.height, top.data.clone()).unwrap();
    image::imageops::overlay(&mut b, &t, x, y);
    b.into_raw()
}

/// `DynamicImage::write_to` of an RGBA buffer into a byte vector. The encoders assert
/// that they are handed exactly the bytes of the pixels, so the data must hold no more
/// than `width * height` pixels.
#[verifier::external_body]
fn write_rgba_to(buffer: RgbaBuffer, format: ImageOutputFormat) -> (res: Option<Vec<u8>>)
    requires
        buffer_fits(buffer.width, buffer.height, buffer.data.len() as int),
        buffer.data.len() == rgba_len(buffer.width, buffer.height),
    ensures
        match res {
            Some(bytes) => encoded_image(buffer.width, buffer.height, buffer.data@, format) == Some(bytes@),
            None => encoded_image(buffer.width, buffer.height, buffer.data@, format) is None,
        },
{
    let img = RgbaImage::from_raw(buffer.width, buffer.height, buffer.data).unwrap();
    let fmt = match format {
        ImageOutputFormat::Png => ImageFormat::Png,
        ImageOutputFormat::Jpeg => ImageFormat::Jpeg,
        ImageOutputFormat::Bmp => ImageFormat::Bmp,
    };
    let mut cursor = std::io::Cursor::new(Vec::new());
    match DynamicImage::ImageRgba8(img).write_to(&mut cursor, fmt) {
        Ok(()) => Some(cursor.into_inner()),
        Err(_) => None,
    }
}

/// The number of bytes of `width * height` pixels, `None` when it overflows `usize`.
fn rgba_byte_len(width: u32, height: u32) -> (n: Option<usize>)
    ensures
        match n {
            Some(n) => n == rgba_len(width, height) && rgba_len_fits(width, height),
            None => !rgba_len_fits(width, height),
        },
{
    let w = width as usize;
    let h = height as usize;
    match 4usize.checked_mul(w) {
        None => None,
        Some(a) => match a.checked_mul(h) {
            None => None,
            Some(n) => Some(n),
        },
    }
}

/// The RGBA data `to_imgbuf` makes of an image whose data fits: its `width * height`
/// pixels, past which any further bytes of the data are not part of the image.
pub open spec fn rgba_data_of(image: Image) -> Seq<u8> {
    match image.memory_format {
        ImageMemoryFormat::R8g8b8a8Premultiplied => image.data@.subrange(0, rgba_len(image.pixel_width, image.pixel_height)),
        ImageMemoryFormat::B8g8r8a8Premultiplied => bgra_to_rgba(image.data@, image.pixel_width * image.pixel_height),
    }
}

/// The RGBA buffer of an image, copying its data.
fn rgba_buffer(image: &Image) -> (res: Result<RgbaBuffer, ImageError>)
    ensures
        match res {
            Ok(buf) => {
                &&& buffer_fits(image.pixel_width, image.pixel_height, image.data.len() as int)
                &&& buffer_fits(buf.width, buf.height, buf.data.len() as int)
                &&& buf.data.len() == rgba_len(buf.width, buf.height)
                &&& buf.width == image.pixel_width
                &&& buf.height == image.pixel_height
                &&& buf.data@ == rgba_data_of(*image)
            },
            Err(e) => {
                &&& e == ImageError::BufferTooSmall
                &&& !buffer_fits(image.pixel_width, image.pixel_height, image.data.len() as int)
            },
        },
{
    let n = match rgba_byte_len(image.pixel_width, image.pixel_height) {
        None => {
            return Err(ImageError::BufferTooSmall);
        },
        Some(n) => n,
    };
    if image.data.len() < n {
        return Err(ImageError::BufferTooSmall);
    }
    match image.memory_format {
        ImageMemoryFormat::R8g8b8a8Premultiplied => {
            let mut data = image.data.clone();
            data.truncate(n);
            assert(data@ =~= image.data@.subrange(0, rgba_len(image.pixel_width, image.pixel_height)));
            Ok(RgbaBuffer { width: image.pixel_width, height: image.pixel_height, data })
        },
        ImageMemoryFormat::B8g8r8a8Premultiplied => {
            let ghost pixels = image.pixel_width * image.pixel_height;
            assert(4 * image.pixel_width * image.pixel_height == 4 * (image.pixel_width * image.pixel_height)) by (nonlinear_arith);
            let mut out: Vec<u8> = Vec::new();
            let mut i: usize = 0;
            while i < n
                invariant
                    n == 4 * pixels,
                    n <= image.data.len(),
                    i <= n,
                    i % 4 == 0,
                    out.len() == i,
                    forall|j: int| 0 <= j < i ==> out[j] == #[trigger] bgra_to_rgba(image.data@, pixels)[j],
                decreases n - i,
            {
                out.push(image.data[i + 2]);
                out.push(image.data[i + 1]);
                out.push(image.data[i]);
                out.push(image.data[i + 3]);
                proof {
                    let target = bgra_to_rgba(image.data@, pixels);
                    assert(target[i as int] == image.data@[i + 2]);
                    assert(target[i + 1] == image.data@[i + 1]);
                    assert(target[i + 2] == image.data@[i as int]);
                    assert(target[i + 3] == image.data@[i + 3]);
                }
                i = i + 4;
            }
            assert(out@ =~= bgra_to_rgba(image.data@, pixels));
            Ok(RgbaBuffer { width: image.pixel_width, height: image.pixel_height, data: out })
        },
    }
}

impl Image {
    /// The image as an RGBA buffer: BGRA data has its blue and red bytes swapped,
    /// RGBA data is taken as it is. The buffer holds exactly the `width * height`
    /// pixels: bytes of the data past them are not carried over (the encoders refuse a
    /// longer buffer). Fails when the data is shorter than four bytes per pixel.
    pub fn to_imgbuf(self) -> (res: Result<RgbaBuffer, ImageError>)
        ensures
            match res {
                Ok(buf) => {
                    &&& buffer_fits(self.pixel_width, self.pixel_height, self.data.len() as int)
                    &&& buf.data.len() == rgba_len(buf.width, buf.height)
                    &&& buf.width == self.pixel_width
                    &&& buf.height == self.pixel_height
                    &&& buf.data@ == rgba_data_of(self)
                },
                Err(e) => {
                    &&& e == ImageError::BufferTooSmall
                    &&& !buffer_fits(self.pixel_width, self.pixel_height, self.data.len() as int)
                },
            },
    {
        rgba_buffer(&self)
    }
}

/// Checks the pixel data of an image: the width must not be zero and the data must
/// hold four bytes per pixel, its length compared as a `u32`. The byte count of the
/// dimensions must fit in a `u32`.
pub fn assert_image(image: &Image) -> (res: Result<(), ImageError>)
    requires
        rgba_len(image.pixel_width, image.pixel_height) <= u32::MAX,
    ensures
        res is Ok <==> (image.pixel_width != 0 && (image.data.len() as u32) == rgba_len(image.pixel_width, image.pixel_height)),
        res matches Err(e) ==> e == ImageError::InvalidImageData,
{
    let w = image.pixel_width;
    let h = image.pixel_height;
    assert(4 * w * h == 4 * (w * h)) by (nonlinear_arith);
    assert(w * h <= 4 * (w * h)) by (nonlinear_arith);
    let expected: u32 = 4 * (w * h);
    if w == 0 || image.data.len() as u32 != expected {
        Err(ImageError::InvalidImageData)
    } else {
        Ok(())
    }
}

/// An image together with the pixel offset at which it lands in a larger image.
#[derive(Debug)]
pub struct PlacedImage {
    pub image: Image,
    pub x: u32,
    pub y: u32,
}

/// The data after overlaying the first `n` placed images, in order, onto an empty
/// (all zero) RGBA buffer of the given size.
pub open spec fn overlaid(width: u32, height: u32, images: Seq<PlacedImage>, n: nat) -> Seq<u8>
    decreases n,
{
    if n == 0 {
        Seq::new(rgba_len(width, height) as nat, |i: int| 0u8)
    } else {
        let p = images[n - 1];
        overlay_pixels(
            width,
            height,
            overlaid(width, height, images, (n - 1) as nat),
            p.image.pixel_width,
            p.image.pixel_height,
            rgba_data_of(p.image),
            p.x as i64,
            p.y as i64,
        )
    }
}

/// Overlays the images in order onto an empty RGBA image of the given pixel size.
/// Fails, with the first failing image's error, when an image's data is too short.
pub fn concat_images(images: Vec<PlacedImage>, pixel_width: u32, pixel_height: u32) -> (res: Result<Image, ImageError>)
    requires
        rgba_len_fits(pixel_width, pixel_height),
    ensures
        match res {
            Ok(img) => {
                &&& forall|i: int| 0 <= i < images.len() ==> buffer_fits(
                    #[trigger] images[i].image.pixel_width,
                    images[i].image.pixel_height,
                    images[i].image.data.len() as int,
                )
                &&& img.pixel_width == pixel_width
                &&& img.pixel_height == pixel_height
                &&& img.memory_format == ImageMemoryFormat::R8g8b8a8Premultiplied
                &&& img.data@ == overlaid(pixel_width, pixel_height, images@, images.len() as nat)
                &&& img.data.len() == rgba_len(pixel_width, pixel_height)
            },
            Err(e) => {
                &&& e == ImageError::BufferTooSmall
                &&& exists|i: int| 0 <= i < images.len() && !buffer_fits(
                    #[trigger] images[i].image.pixel_width,
                    images[i].image.pixel_height,
                    images[i].image.data.len() as int,
                )
            },
        },
{
    let n = rgba_byte_len(pixel_width, pixel_height).unwrap();
    let mut target: Vec<u8> = vec![0u8; n];
    assert(target@ =~= overlaid(pixel_width, pixel_height, images@, 0));
    let mut i: usize = 0;
    while i < images.len()
        invariant
            n == rgba_len(pixel_width, pixel_height),
            rgba_len_fits(pixel_width, pixel_height),
            i <= images.len(),
            target@.len() == n,
            target@ == overlaid(pixel_width, pixel_height, images@, i as nat),
            forall|j: int| 0 <= j < i ==> buffer_fits(
                #[trigger] images[j].image.pixel_width,
                images[j].image.pixel_height,
                images[j].image.data.len() as int,
            ),
        decreases images.len() - i,
    {
        let placed = &images[i];
        let top = match rgba_buffer(&placed.image) {
            Ok(b) => b,
            Err(e) => {
                return Err(e);
            },
        };
        let bottom = RgbaBuffer { width: pixel_width, height: pixel_height, data: target };
        target = overlay_rgba(bottom, &top, placed.x as i64, placed.y as i64);
        i = i + 1;
    }
    Ok(Image {
        data: target,
        pixel_width,
        pixel_height,
        memory_format: ImageMemoryFormat::R8g8b8a8Premultiplied,
    })
}

/// Encodes an image in the given format, after converting it to RGBA.
pub fn image_into_encoded_bytes(image: Image, format: ImageOutputFormat) -> (res: Result<Vec<u8>, ImageError>)
    ensures
        match res {
            Ok(bytes) => {
                &&& buffer_fits(image.pixel_width, image.pixel_height, image.data.len() as int)
                &&& encoded_image(image.pixel_width, image.pixel_height, rgba_data_of(image), format) == Some(bytes@)
            },
            Err(e) => {
                ||| (e == ImageError::BufferTooSmall && !buffer_fits(image.pixel_width, image.pixel_height, image.data.len() as int))
                ||| (e == ImageError::EncodingFailed
                    && buffer_fits(image.pixel_width, image.pixel_height, image.data.len() as int)
                    && encoded_image(image.pixel_width, image.pixel_height, rgba_data_of(image), format) is None)
            },
        },
{
    let buf = rgba_buffer(&image)?;
    match write_rgba_to(buf, format) {
        Some(bytes) => Ok(bytes),
        None => Err(ImageError::EncodingFailed),
    }
}

/// The width and height of the image `image::load_from_memory` decodes from the bytes,
/// `None` when it returns an error.
pub uninterp spec fn decoded_dimensions(bytes: Seq<u8>) -> Option<(u32, u32)>;

/// `image::load_from_memory`: guesses the format of the bytes and decodes them; the
/// dimensions of the decoded image are handed back.
#[verifier::external_body]
fn load_from_memory_dimensions(bytes: &[u8]) -> (d: Option<(u32, u32)>)
    ensures
        d == decoded_dimensions(bytes@),
{
    image::load_from_memory(bytes).ok().map(|img| (img.width(), img.height()))
}

/// The pixel size of the bitmap image that bytes imported as a bitmap hold, `None` when
/// they cannot be decoded.
pub fn bitmap_image_size(bytes: &[u8]) -> (size: Option<(u32, u32)>)
    ensures
        size == decoded_dimensions(bytes@),
{
    load_from_memory_dimensions(bytes)
}

/// Converting an image to RGBA keeps every pixel in place, on every row: pixel `k` of
/// the `width * height` pixels of a BGRA image becomes (red, green, blue, alpha) =
/// (`data[4k+2]`, `data[4k+1]`, `data[4k]`, `data[4k+3]`), and pixel `k` of an RGBA image
/// keeps its four bytes. The result holds exactly those pixels.
pub proof fn lemma_rgba_conversion_per_pixel(image: Image, k: int)
    requires
        buffer_fits(image.pixel_width, image.pixel_height, image.data.len() as int),
        0 <= k < image.pixel_width * image.pixel_height,
    ensures
        rgba_data_of(image).len() == 4 * image.pixel_width * image.pixel_height,
        image.memory_format == ImageMemoryFormat::B8g8r8a8Premultiplied ==> {
            &&& rgba_data_of(image)[4 * k] == image.data@[4 * k + 2]
            &&& rgba_data_of(image)[4 * k + 1] == image.data@[4 * k + 1]
            &&& rgba_data_of(image)[4 * k + 2] == image.data@[4 * k]
            &&& rgba_data_of(image)[4 * k + 3] == image.data@[4 * k + 3]
        },
        image.memory_format == ImageMemoryFormat::R8g8b8a8Premultiplied ==> {
            &&& rgba_data_of(image)[4 * k] == image.data@[4 * k]
            &&& rgba_data_of(image)[4 * k + 1] == image.data@[4 * k + 1]
            &&& rgba_data_of(image)[4 * k + 2] == image.data@[4 * k + 2]
            &&& rgba_data_of(image)[4 * k + 3] == image.data@[4 * k + 3]
        },
{
    let w = image.pixel_width;
    let h = image.pixel_height;
    let px: int = w * h;
    assert(4 * w * h == 4 * px) by (nonlinear_arith)
        requires
            px == w * h,
    ;
    assert((4 * k) % 4 == 0 && (4 * k + 1) % 4 == 1 && (4 * k + 2) % 4 == 2 && (4 * k + 3) % 4 == 3) by (nonlinear_arith)
        requires
            0 <= k,
    ;
}

/// Compositing places every image at its own offset: the composite of no image is
/// transparent (every byte zero, `width * height` pixels), and the composite of the
/// first `n` images is the composite of the first `n - 1` with image `n - 1`, as RGBA,
/// overlaid at its offset `(x, y)`, in both directions.
pub proof fn lemma_concat_places_each_image_at_its_offset(width: u32, height: u32, images: Seq<PlacedImage>, n: nat)
    requires
        n <= images.len(),
    ensures
        n == 0 ==> overlaid(width, height, images, n).len() == 4 * width * height,
        n == 0 ==> forall|i: int| 0 <= i < 4 * width * height ==> #[trigger] overlaid(width, height, images, n)[i] == 0u8,
        n > 0 ==> overlaid(width, height, images, n) == overlay_pixels(
            width,
            height,
            overlaid(width, height, images, (n - 1) as nat),
            images[n - 1].image.pixel_width,
            images[n - 1].image.pixel_height,
            rgba_data_of(images[n - 1].image),
            images[n - 1].x as i64,
            images[n - 1].y as i64,
        ),
{
}

} // verus!
