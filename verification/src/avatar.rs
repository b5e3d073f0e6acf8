use vstd::prelude::*;
use egui::ColorImage;
use image::{DynamicImage, ImageError};

verus! {

/// `image::DynamicImage`, a raster image whatever its pixels are made of.
#[verifier::external_type_specification]
#[verifier::external_body]
pub struct ExDynamicImage(image::DynamicImage);

/// `image::ImageError`, why bytes hold no raster image.
#[verifier::external_type_specification]
#[verifier::external_body]
pub struct ExImageError(image::ImageError);

/// The pixels of an image, four bytes each: red, green, blue and alpha,
/// row by row.
#[derive(Debug, Clone)]
pub struct RgbaPixels {
    pub width: u32,
    pub height: u32,
    pub data: Vec<u8>,
}

/// The width and the height of a raster image, in pixels.
pub uninterp spec fn raster_measures(image: DynamicImage) -> (u32, u32);

/// The width and the height of the raster image that bytes hold, in
/// whichever raster format they are; none where they hold no such image.
pub uninterp spec fn decoded_measures(bytes: Seq<u8>) -> Option<(u32, u32)>;

/// The width and the height of an image for display, in pixels.
pub uninterp spec fn image_measures(image: ColorImage) -> (usize, usize);

/// The measures of the part of an image that lies within a rectangle: the
/// rectangle's, cut down to what the image has to the right of the
/// rectangle's left edge and below its upper edge.
pub open spec fn cropped_measures(
    of: (u32, u32),
    x: u32,
    y: u32,
    width: u32,
    height: u32,
) -> (u32, u32) {
    let left = if x < of.0 {
        x
    } else {
        of.0
    };
    let top = if y < of.1 {
        y
    } else {
        of.1
    };
    (
        if width < of.0 - left {
            width
        } else {
            (of.0 - left) as u32
        },
        if height < of.1 - top {
            height
        } else {
            (of.1 - top) as u32
        },
    )
}

/// The side of the avatar that is made for a size: the size, but one pixel
/// where the size is nought, as no image has a side of nought pixels.
pub open spec fn avatar_side(size: u32) -> u32 {
    if size == 0 {
        1
    } else {
        size
    }
}

/// `image::load_from_memory`: the image that the bytes hold, in whichever
/// raster format they are, or why they hold none. The bytes alone decide
/// whether they hold an image, and how wide and how high it is.
#[verifier::external_body]
fn decode_raster(bytes: &[u8]) -> (r: Result<DynamicImage, ImageError>)
    ensures
        r matches Ok(image) ==> decoded_measures(bytes@) == Some(raster_measures(image)),
        r is Err ==> decoded_measures(bytes@) is None,
{
    image::load_from_memory(bytes)
}

/// `DynamicImage::width`.
#[verifier::external_body]
fn raster_width(image: &DynamicImage) -> (r: u32)
    ensures
        r == raster_measures(*image).0,
{
    image.width()
}

/// `DynamicImage::height`.
#[verifier::external_body]
fn raster_height(image: &DynamicImage) -> (r: u32)
    ensures
        r == raster_measures(*image).1,
{
    image.height()
}

/// `DynamicImage::crop_imm`: the part of the image within the rectangle,
/// which is cut down to the image where it reaches beyond it.
#[verifier::external_body]
fn raster_crop(image: &DynamicImage, x: u32, y: u32, width: u32, height: u32) -> (r: DynamicImage)
    ensures
        raster_measures(r) == cropped_measures(raster_measures(*image), x, y, width, height),
{
    image.crop_imm(x, y, width, height)
}

/// The largest side of an avatar, in pixels. A square image of this side
/// has fewer bytes than a vector can hold, whatever its pixels are made of,
/// on machines of 32 bits too.
pub const MAX_AVATAR_SIDE: u32 = 8192;

/// `DynamicImage::resize` with the triangle filter: the image scaled to the
/// largest size that fits within the bounds, its proportions kept, and no
/// side less than one pixel. So a square image scaled into a square fills
/// it. It gives up on an image that would be larger than a vector can be,
/// so the bounds are held low.
#[verifier::external_body]
fn raster_resize(image: &DynamicImage, width: u32, height: u32) -> (r: DynamicImage)
    requires
        width <= MAX_AVATAR_SIDE,
        height <= MAX_AVATAR_SIDE,
    ensures
        raster_measures(*image).0 == raster_measures(*image).1 && raster_measures(*image).0 > 0
            && width == height ==> raster_measures(r) == (avatar_side(width), avatar_side(width)),
{
    image.resize(width, height, image::imageops::FilterType::Triangle)
}

/// `DynamicImage::into_rgba8`: the image's pixels, with its measures. The
/// bytes are at least as many as the measures ask for: an image buffer is
/// never made of fewer.
#[verifier::external_body]
fn raster_into_rgba(image: DynamicImage) -> (r: RgbaPixels)
    ensures
        (r.width, r.height) == raster_measures(image),
        r.data@.len() >= 4 * r.width * r.height,
{
    let buffer = image.into_rgba8();
    RgbaPixels { width: buffer.width(), height: buffer.height(), data: buffer.into_raw() }
}

/// `ColorImage::from_rgba_unmultiplied`: the image for display that the
/// pixels make, of the measures given.
#[verifier::external_body]
fn color_image_from_rgba(width: usize, height: usize, rgba: &[u8]) -> (r: ColorImage)
    requires
        width * height * 4 == rgba@.len(),
    ensures
        image_measures(r) == (width, height),
{
    ColorImage::from_rgba_unmultiplied([width, height], rgba)
}

/// `egui_extras::image::load_svg_bytes_with_size`: the vector image that
/// the bytes hold, drawn to fill a square of the given size, or why they
/// hold none. Nothing is drawn into a square of no size.
#[verifier::external_body]
fn render_vector(bytes: &[u8], size: u32) -> (r: Result<ColorImage, String>)
    ensures
        r matches Ok(image) ==> size >= 1 && image_measures(image) == (
            size as usize,
            size as usize,
        ),
{
    egui_extras::image::load_svg_bytes_with_size(bytes, egui_extras::image::FitTo::Size(size, size))
}

/// A rectangle within an image.
#[derive(Debug, Clone, Copy, PartialEq, Eq, Structural)]
pub struct CropRegion {
    pub x: u32,
    pub y: u32,
    pub width: u32,
    pub height: u32,
}

/// The square in the middle of an image: as wide and as high as the
/// smaller of the image's measures, with as much left out on one side as on
/// the other, but for one pixel where what is left out is odd. None for an
/// image that is square already.
pub open spec fn spec_square_crop(width: u32, height: u32) -> Option<CropRegion> {
    if width > height {
        Some(
            CropRegion {
                x: ((width - height) / 2) as u32,
                y: 0,
                width: height,
                height: height,
            },
        )
    } else if height > width {
        Some(
            CropRegion {
                x: 0,
                y: ((height - width) / 2) as u32,
                width: width,
                height: width,
            },
        )
    } else {
        None
    }
}

/// The square to cut out of the middle of an image of the given measures.
pub fn square_crop(width: u32, height: u32) -> (r: Option<CropRegion>)
    ensures
        r == spec_square_crop(width, height),
        r is None <==> width == height,
        r matches Some(c) ==> {
            &&& c.width == c.height
            &&& c.width == if width < height {
                width
            } else {
                height
            }
            &&& c.x + c.width <= width
            &&& c.y + c.height <= height
            &&& c.x <= width - (c.x + c.width) <= c.x + 1
            &&& c.y <= height - (c.y + c.height) <= c.y + 1
        },
{
    let smaller = if width < height {
        width
    } else {
        height
    };
    if width > smaller {
        let excess = width - smaller;
        Some(CropRegion { x: excess / 2, y: 0, width: width - excess, height })
    } else if height > smaller {
        let excess = height - smaller;
        Some(CropRegion { x: 0, y: excess / 2, width, height: height - excess })
    } else {
        None
    }
}

/// The side of the square that an avatar is made for, in pixels: three
/// times the side it is shown with, scaled by the display's pixels per
/// point, which are given in hundredths. At most what 32 bits hold.
pub open spec fn spec_avatar_pixel_size(avatar_size: u32, pixels_per_point_times_100: u32) -> u32 {
    let exact = (avatar_size * 3 * pixels_per_point_times_100) / 100;
    if exact > u32::MAX {
        u32::MAX
    } else {
        exact as u32
    }
}

pub fn avatar_pixel_size(avatar_size: u32, pixels_per_point_times_100: u32) -> (r: u32)
    ensures
        r == spec_avatar_pixel_size(avatar_size, pixels_per_point_times_100),
{
    let tripled: u128 = (avatar_size as u128) * 3;
    let scale: u128 = pixels_per_point_times_100 as u128;
    assert(tripled * scale <= 0x3_0000_0000 * 0x1_0000_0000) by (nonlinear_arith)
        requires
            tripled <= 0x3_0000_0000,
            scale <= 0x1_0000_0000,
    ;
    let product: u128 = tripled * scale;
    assert(product == avatar_size * 3 * pixels_per_point_times_100);
    let exact: u128 = product / 100;
    if exact > u32::MAX as u128 {
        u32::MAX
    } else {
        exact as u32
    }
}

/// Whether the bytes of the pixels are as many as the measures ask for.
pub open spec fn pixels_fit(pixels: RgbaPixels) -> bool {
    pixels.data@.len() == pixels.width * pixels.height * 4
}

/// Whether the bytes of the pixels are as many as the measures ask for:
/// only then can an image for display be made of them.
pub fn check_pixels(pixels: &RgbaPixels) -> (r: bool)
    ensures
        r == pixels_fit(*pixels),
{
    let w: u128 = pixels.width as u128;
    let h: u128 = pixels.height as u128;
    assert(w * h <= 0x1_0000_0000 * 0x1_0000_0000) by (nonlinear_arith)
        requires
            w <= 0x1_0000_0000,
            h <= 0x1_0000_0000,
    ;
    let wanted: u128 = w * h * 4;
    pixels.data.len() as u128 == wanted
}

/// Makes the raster image that was decoded into an avatar: cuts the square
/// out of its middle, scales it to the size, and makes it an image for
/// display. There is an avatar for every image that has pixels, and it is a
/// square of the side asked for.
fn avatar_from_raster(image: DynamicImage, size: u32) -> (r: Option<ColorImage>)
    requires
        size <= MAX_AVATAR_SIDE,
    ensures
        r is Some <==> raster_measures(image).0 > 0 && raster_measures(image).1 > 0,
        r matches Some(avatar) ==> image_measures(avatar) == (
            avatar_side(size) as usize,
            avatar_side(size) as usize,
        ),
{
    let width = raster_width(&image);
    let height = raster_height(&image);
    if width == 0 || height == 0 {
        return None;
    }
    let square = match square_crop(width, height) {
        Some(c) => raster_crop(&image, c.x, c.y, c.width, c.height),
        None => image,
    };
    assert(raster_measures(square).0 == raster_measures(square).1);
    assert(raster_measures(square).0 > 0);
    let scaled = raster_resize(&square, size, size);
    let mut pixels = raster_into_rgba(scaled);
    let side: usize = pixels.width as usize;
    assert(side == avatar_side(size) && pixels.height == side);
    assert(side * side <= 8192 * 8192) by (nonlinear_arith)
        requires
            side <= 8192,
    ;
    let wanted: usize = side * side * 4;
    assert(wanted == 4 * pixels.width * pixels.height) by (nonlinear_arith)
        requires
            wanted == side * side * 4,
            pixels.width == side,
            pixels.height == side,
    ;
    if !check_pixels(&pixels) {
        pixels.data.truncate(wanted);
    }
    assert(pixels.data@.len() == wanted);
    Some(color_image_from_rgba(side, side, pixels.data.as_slice()))
}

/// Makes an avatar of the given size from the bytes of a picture, which
/// hold a raster image or else a vector image. A raster image is cut to
/// the square in its middle (see [`square_crop`]) and scaled to the size; a
/// vector image is drawn into a square of the size. None where the bytes
/// hold neither, or a raster image without pixels: such a picture has
/// failed for good.
///
/// Bytes that hold a raster image with pixels always give an avatar, and
/// every avatar is a square of the side asked for.
pub fn derive_avatar(bytes: &[u8], size: u32) -> (r: Option<ColorImage>)
    requires
        size <= MAX_AVATAR_SIDE,
    ensures
        decoded_measures(bytes@) matches Some(measures) ==> (r is Some <==> measures.0 > 0
            && measures.1 > 0),
        decoded_measures(bytes@) is None && size == 0 ==> r is None,
        r matches Some(avatar) ==> image_measures(avatar) == (
            avatar_side(size) as usize,
            avatar_side(size) as usize,
        ),
{
    match decode_raster(bytes) {
        Ok(image) => avatar_from_raster(image, size),
        Err(_) => match render_vector(bytes, size) {
            Ok(image) => Some(image),
            Err(_) => None,
        },
    }
}

} // verus!
