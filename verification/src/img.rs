//! Image operations: rotation, high-quality resize, cropping and the
//! compositor that fits a photo to the screen and fills the letterbox space
//! with softened crops of the photo itself.
//!
//! Pixel work is done by the `image` and `fast_image_resize` crates behind
//! trusted wrappers. Each wrapper's result carries a name — a function of
//! the input bytes, sizes and pixel layout — so the compositors can state
//! their output exactly: which sliver is cut where, how it is stretched and
//! treated, and where everything lands on the canvas.

use vstd::prelude::*;

use image::DynamicImage;

use crate::cli::Rotation;
use crate::geometry::{crop_pair_spec, fills_screen, fit_height, fit_width, Coords, Dimensions};

verus! {

#[verifier::external_type_specification]
#[verifier::external_body]
pub struct ExDynamicImage(DynamicImage);

/// Width in pixels of an image held by the `image` crate.
pub uninterp spec fn img_w(i: DynamicImage) -> u32;

/// Height in pixels of an image held by the `image` crate.
pub uninterp spec fn img_h(i: DynamicImage) -> u32;

/// The raw pixel bytes of an image held by the `image` crate.
pub uninterp spec fn img_data(i: DynamicImage) -> Seq<u8>;

/// Abstract tag of an image's pixel format, each `DynamicImage` variant
/// having its own value and the eight-bit RGB format the value
/// [`rgb8_layout`]. Raw bytes mean colors only under a layout, so the
/// resampling and blending results below are functions of the bytes, the
/// sizes and this tag together.
pub uninterp spec fn img_layout(i: DynamicImage) -> nat;

/// The layout tag of eight-bit RGB images.
pub open spec fn rgb8_layout() -> nat {
    0
}

/// A run of zero bytes: the contents of a freshly allocated black canvas.
pub open spec fn zero_bytes(n: int) -> Seq<u8> {
    Seq::new(n as nat, |i: int| 0u8)
}

/// Pixel bytes of a quarter-turn clockwise rotation of an image with the
/// given bytes and dimensions.
pub uninterp spec fn rot90_data(s: Seq<u8>, w: u32, h: u32) -> Seq<u8>;

/// Pixel bytes of a half-turn rotation.
pub uninterp spec fn rot180_data(s: Seq<u8>, w: u32, h: u32) -> Seq<u8>;

/// Pixel bytes of a quarter-turn counter-clockwise rotation.
pub uninterp spec fn rot270_data(s: Seq<u8>, w: u32, h: u32) -> Seq<u8>;

/// Pixel bytes of the crate's resampler: the image with bytes `s`, size
/// `w` x `h` and pixel layout `layout`, resized to `nw` x `nh`, with the
/// nearest-neighbour algorithm when `nearest` and Lanczos3 convolution
/// otherwise.
pub uninterp spec fn resized_of(
    s: Seq<u8>,
    w: u32,
    h: u32,
    layout: nat,
    nw: u32,
    nh: u32,
    nearest: bool,
) -> Seq<u8>;

/// Pixel bytes of the cut-out at `(x, y, cw, ch)` of an image with bytes
/// `s` and size `w` x `h`; whole pixels move, so the bytes and sizes alone
/// determine the result.
pub uninterp spec fn cropped_of(
    s: Seq<u8>,
    w: u32,
    h: u32,
    x: u32,
    y: u32,
    cw: u32,
    ch: u32,
) -> Seq<u8>;

/// Pixel bytes of drawing the `top` image onto the `bottom` one at
/// `(x, y)`, clipped at the canvas edges and alpha-blended through each
/// image's layout.
pub uninterp spec fn overlaid_of(
    bottom: Seq<u8>,
    bw: u32,
    bh: u32,
    blayout: nat,
    top: Seq<u8>,
    tw: u32,
    th: u32,
    tlayout: nat,
    x: i64,
    y: i64,
) -> Seq<u8>;

/// The decoder's verdict on a byte buffer: `None` when the bytes are no
/// image, otherwise the decoded image's width, height, pixel layout and
/// bytes — a function of the buffer alone.
pub uninterp spec fn decoded_of(b: Seq<u8>) -> Option<(u32, u32, nat, Seq<u8>)>;

/// Width of an image after rotating by the given angle.
pub open spec fn rotated_w(w: u32, h: u32, rotation: Rotation) -> u32 {
    match rotation {
        Rotation::D0 => w,
        Rotation::D90 => h,
        Rotation::D180 => w,
        Rotation::D270 => h,
    }
}

/// Height of an image after rotating by the given angle.
pub open spec fn rotated_h(w: u32, h: u32, rotation: Rotation) -> u32 {
    match rotation {
        Rotation::D0 => h,
        Rotation::D90 => w,
        Rotation::D180 => h,
        Rotation::D270 => w,
    }
}

/// Pixel bytes of an image after rotating by the given angle.
pub open spec fn rotated_data(s: Seq<u8>, w: u32, h: u32, rotation: Rotation) -> Seq<u8> {
    match rotation {
        Rotation::D0 => s,
        Rotation::D90 => rot90_data(s, w, h),
        Rotation::D180 => rot180_data(s, w, h),
        Rotation::D270 => rot270_data(s, w, h),
    }
}

/// Relies on image::GenericImageView::dimensions for DynamicImage: the
/// image's width and height in pixels.
#[verifier::external_body]
pub fn dimensions_of(img: &DynamicImage) -> (r: Dimensions)
    ensures
        r.w == img_w(*img),
        r.h == img_h(*img),
{
    let (w, h) = image::GenericImageView::dimensions(img);
    Dimensions { w, h }
}

/// Relies on image::load_from_memory: decodes a photo from its raw bytes,
/// guessing the format — a deterministic function of the buffer; the error
/// is turned into its message.
#[verifier::external_body]
pub fn load_from_memory(buffer: &[u8]) -> (r: Result<DynamicImage, String>)
    ensures
        match r {
            Ok(image) => decoded_of(buffer@) matches Some(d) && img_w(image) == d.0 && img_h(image)
                == d.1 && img_layout(image) == d.2 && img_data(image) == d.3,
            Err(_) => decoded_of(buffer@) is None,
        },
{
    image::load_from_memory(buffer).map_err(|e| e.to_string())
}

/// Relies on image::DynamicImage::new_rgb8: a zero-filled (black) RGB
/// image of the given size. The size bound keeps the pixel buffer's length
/// within `usize`, which the constructor demands.
#[verifier::external_body]
fn new_canvas(w: u32, h: u32) -> (r: DynamicImage)
    requires
        w as int * h as int * 3 <= usize::MAX as int,
    ensures
        img_w(r) == w,
        img_h(r) == h,
        img_layout(r) == rgb8_layout(),
        img_data(r) == zero_bytes(3 * w as int * h as int),
{
    DynamicImage::new_rgb8(w, h)
}

/// Relies on Clone for image::DynamicImage: an exact copy of the image.
#[verifier::external_body]
fn duplicate(img: &DynamicImage) -> (r: DynamicImage)
    ensures
        img_w(r) == img_w(*img),
        img_h(r) == img_h(*img),
        img_layout(r) == img_layout(*img),
        img_data(r) == img_data(*img),
{
    img.clone()
}

/// Relies on image::DynamicImage::rotate90: a quarter-turn clockwise; the
/// output's width is the input's height and vice versa, and a quarter-turn
/// back returns the input.
#[verifier::external_body]
fn rotate90_image(img: &DynamicImage) -> (r: DynamicImage)
    ensures
        img_w(r) == img_h(*img),
        img_h(r) == img_w(*img),
        img_layout(r) == img_layout(*img),
        img_data(r) == rot90_data(img_data(*img), img_w(*img), img_h(*img)),
        rot270_data(img_data(r), img_h(*img), img_w(*img)) == img_data(*img),
{
    img.rotate90()
}

/// Relies on image::DynamicImage::rotate180: a half-turn; dimensions are
/// kept, and a second half-turn returns the input.
#[verifier::external_body]
fn rotate180_image(img: &DynamicImage) -> (r: DynamicImage)
    ensures
        img_w(r) == img_w(*img),
        img_h(r) == img_h(*img),
        img_layout(r) == img_layout(*img),
        img_data(r) == rot180_data(img_data(*img), img_w(*img), img_h(*img)),
        rot180_data(img_data(r), img_w(*img), img_h(*img)) == img_data(*img),
{
    img.rotate180()
}

/// Relies on image::DynamicImage::rotate270: a quarter-turn counter-
/// clockwise; the output's width is the input's height and vice versa, and
/// a quarter-turn forward returns the input.
#[verifier::external_body]
fn rotate270_image(img: &DynamicImage) -> (r: DynamicImage)
    ensures
        img_w(r) == img_h(*img),
        img_h(r) == img_w(*img),
        img_layout(r) == img_layout(*img),
        img_data(r) == rot270_data(img_data(*img), img_w(*img), img_h(*img)),
        rot90_data(img_data(r), img_h(*img), img_w(*img)) == img_data(*img),
{
    img.rotate270()
}

/// Relies on image::DynamicImage::crop_imm: for a rectangle that lies
/// within the image, the cut-out has exactly the requested size and the
/// rectangle's pixels.
#[verifier::external_body]
fn crop_image(img: &DynamicImage, c: Coords) -> (r: DynamicImage)
    requires
        c.x + c.w <= img_w(*img),
        c.y + c.h <= img_h(*img),
    ensures
        img_w(r) == c.w,
        img_h(r) == c.h,
        img_layout(r) == img_layout(*img),
        img_data(r) == cropped_of(img_data(*img), img_w(*img), img_h(*img), c.x, c.y, c.w, c.h),
{
    img.crop_imm(c.x, c.y, c.w, c.h)
}

/// Relies on fast_image_resize::Resizer::resize with Lanczos3 convolution,
/// writing into a destination of the requested size and the source's color
/// type; with matching pixel types the resize never fails. The size bound
/// keeps the destination buffer's length within `usize` for every color
/// type the source may have.
#[verifier::external_body]
fn resize_convolution(img: &DynamicImage, w: u32, h: u32) -> (r: DynamicImage)
    requires
        w as int * h as int * 16 <= usize::MAX as int,
    ensures
        img_w(r) == w,
        img_h(r) == h,
        img_layout(r) == img_layout(*img),
        img_data(r) == resized_of(
            img_data(*img),
            img_w(*img),
            img_h(*img),
            img_layout(*img),
            w,
            h,
            false,
        ),
{
    let mut dst = DynamicImage::new(w, h, img.color());
    let mut resizer = fast_image_resize::Resizer::new();
    let options = fast_image_resize::ResizeOptions::new().resize_alg(
        fast_image_resize::ResizeAlg::Convolution(fast_image_resize::FilterType::Lanczos3),
    );
    resizer.resize(img, &mut dst, &options).unwrap();
    dst
}

/// Relies on fast_image_resize::Resizer::resize with the nearest-neighbour
/// algorithm, writing into a destination of the requested size and the
/// source's color type; with matching pixel types the resize never fails.
#[verifier::external_body]
fn resize_nearest(img: &DynamicImage, w: u32, h: u32) -> (r: DynamicImage)
    requires
        w as int * h as int * 16 <= usize::MAX as int,
    ensures
        img_w(r) == w,
        img_h(r) == h,
        img_layout(r) == img_layout(*img),
        img_data(r) == resized_of(
            img_data(*img),
            img_w(*img),
            img_h(*img),
            img_layout(*img),
            w,
            h,
            true,
        ),
{
    let mut dst = DynamicImage::new(w, h, img.color());
    let mut resizer = fast_image_resize::Resizer::new();
    let options = fast_image_resize::ResizeOptions::new().resize_alg(
        fast_image_resize::ResizeAlg::Nearest,
    );
    resizer.resize(img, &mut dst, &options).unwrap();
    dst
}

/// Relies on image::imageops::overlay: draws `top` onto `bottom` at the
/// given offset, clipping at the canvas edges; the canvas keeps its size
/// and layout.
#[verifier::external_body]
fn overlay_at(bottom: &mut DynamicImage, top: &DynamicImage, x: i64, y: i64)
    ensures
        img_w(*final(bottom)) == img_w(*old(bottom)),
        img_h(*final(bottom)) == img_h(*old(bottom)),
        img_layout(*final(bottom)) == img_layout(*old(bottom)),
        img_data(*final(bottom)) == overlaid_of(
            img_data(*old(bottom)),
            img_w(*old(bottom)),
            img_h(*old(bottom)),
            img_layout(*old(bottom)),
            img_data(*top),
            img_w(*top),
            img_h(*top),
            img_layout(*top),
            x,
            y,
        ),
{
    image::imageops::overlay(bottom, top, x, y);
}

/// A plain black screen-sized image, shown in place of a photo that could
/// not be fetched or decoded.
pub fn error_screen(screen: Dimensions) -> (r: DynamicImage)
    requires
        screen.wf(),
        screen.w as int * screen.h as int * 3 <= usize::MAX as int,
    ensures
        img_w(r) == screen.w,
        img_h(r) == screen.h,
        img_layout(r) == rgb8_layout(),
        img_data(r) == zero_bytes(3 * screen.w as int * screen.h as int),
{
    new_canvas(screen.w, screen.h)
}

/// Rotates an image by a multiple of a quarter turn.
pub fn rotate(img: &DynamicImage, rotation: Rotation) -> (r: DynamicImage)
    ensures
        img_w(r) == rotated_w(img_w(*img), img_h(*img), rotation),
        img_h(r) == rotated_h(img_w(*img), img_h(*img), rotation),
        img_layout(r) == img_layout(*img),
        img_data(r) == rotated_data(img_data(*img), img_w(*img), img_h(*img), rotation),
{
    match rotation {
        Rotation::D0 => duplicate(img),
        Rotation::D90 => rotate90_image(img),
        Rotation::D180 => rotate180_image(img),
        Rotation::D270 => rotate270_image(img),
    }
}

/// High-quality resize to an exact size.
pub fn resize(img: &DynamicImage, new_width: u32, new_height: u32) -> (r: DynamicImage)
    requires
        new_width as int * new_height as int * 16 <= usize::MAX as int,
    ensures
        img_w(r) == new_width,
        img_h(r) == new_height,
        img_layout(r) == img_layout(*img),
        img_data(r) == resized_of(
            img_data(*img),
            img_w(*img),
            img_h(*img),
            img_layout(*img),
            new_width,
            new_height,
            false,
        ),
{
    resize_convolution(img, new_width, new_height)
}

/// Scales the image, preserving its aspect ratio, to the largest size that
/// fits within the screen.
fn resize_to_fit_screen(img: &DynamicImage, screen: Dimensions) -> (r: DynamicImage)
    requires
        img_w(*img) >= 1,
        img_h(*img) >= 1,
        screen.wf(),
        screen.w as int * screen.h as int * 16 <= usize::MAX as int,
    ensures
        img_w(r) as int == fit_width(
            img_w(*img) as int,
            img_h(*img) as int,
            screen.w as int,
            screen.h as int,
        ),
        img_h(r) as int == fit_height(
            img_w(*img) as int,
            img_h(*img) as int,
            screen.w as int,
            screen.h as int,
        ),
        img_w(r) <= screen.w,
        img_h(r) <= screen.h,
        img_layout(r) == img_layout(*img),
        img_data(r) == resized_of(
            img_data(*img),
            img_w(*img),
            img_h(*img),
            img_layout(*img),
            img_w(r),
            img_h(r),
            false,
        ),
{
    let d = dimensions_of(img);
    let fg = d.resize(screen);
    proof {
        assert(fg.w as int * fg.h as int * 16 <= screen.w as int * screen.h as int * 16)
            by (nonlinear_arith)
            requires
                0 <= fg.w <= screen.w,
                0 <= fg.h <= screen.h,
        ;
    }
    resize_convolution(img, fg.w, fg.h)
}

/// Centers the image on a fresh screen-sized canvas, letterboxing with
/// black bars; the offset on each axis is half the leftover, rounded.
fn center_on_screen(img: &DynamicImage, screen: Dimensions) -> (r: DynamicImage)
    requires
        screen.wf(),
        screen.w as int * screen.h as int * 3 <= usize::MAX as int,
        img_w(*img) <= screen.w,
        img_h(*img) <= screen.h,
    ensures
        img_w(r) == screen.w,
        img_h(r) == screen.h,
        img_layout(r) == rgb8_layout(),
        img_data(r) == overlaid_of(
            zero_bytes(3 * screen.w as int * screen.h as int),
            screen.w,
            screen.h,
            rgb8_layout(),
            img_data(*img),
            img_w(*img),
            img_h(*img),
            img_layout(*img),
            ((screen.w - img_w(*img) + 1) / 2) as i64,
            ((screen.h - img_h(*img) + 1) / 2) as i64,
        ),
{
    let mut canvas = new_canvas(screen.w, screen.h);
    let d = dimensions_of(img);
    let (dw, dh) = screen.diff(d);
    let x: u64 = (dw as u64 + 1) / 2;
    let y: u64 = (dh as u64 + 1) / 2;
    overlay_at(&mut canvas, img, x as i64, y as i64);
    canvas
}

/// The splash compositor's exact output: the image rotated, Lanczos-fitted
/// to the screen, and laid centered on a black canvas with half the
/// leftover (rounded up) on each side.
pub open spec fn fitted_splash(
    s: Seq<u8>,
    w: u32,
    h: u32,
    layout: nat,
    rotation: Rotation,
    screen: Dimensions,
) -> Seq<u8> {
    let rs = rotated_data(s, w, h, rotation);
    let rw = rotated_w(w, h, rotation);
    let rh = rotated_h(w, h, rotation);
    let fw = fit_width(rw as int, rh as int, screen.w as int, screen.h as int) as u32;
    let fh = fit_height(rw as int, rh as int, screen.w as int, screen.h as int) as u32;
    overlaid_of(
        zero_bytes(3 * screen.w as int * screen.h as int),
        screen.w,
        screen.h,
        rgb8_layout(),
        resized_of(rs, rw, rh, layout, fw, fh, false),
        fw,
        fh,
        layout,
        ((screen.w - fw + 1) / 2) as i64,
        ((screen.h - fh + 1) / 2) as i64,
    )
}

/// Rotates the image, scales it to fit the screen while preserving its
/// aspect ratio, and centers it on a screen-sized canvas with black bars.
pub fn fit_to_screen(img: &DynamicImage, screen: Dimensions, rotation: Rotation) -> (r:
    DynamicImage)
    requires
        img_w(*img) >= 1,
        img_h(*img) >= 1,
        screen.wf(),
        screen.w as int * screen.h as int * 16 <= usize::MAX as int,
    ensures
        img_w(r) == screen.w,
        img_h(r) == screen.h,
        img_layout(r) == rgb8_layout(),
        img_data(r) == fitted_splash(
            img_data(*img),
            img_w(*img),
            img_h(*img),
            img_layout(*img),
            rotation,
            screen,
        ),
{
    let rotated = rotate(img, rotation);
    let resized = resize_to_fit_screen(&rotated, screen);
    center_on_screen(&resized, screen)
}

/// `soft` is an output the treatment may produce for the sliver cut from
/// crop `c` of the rotated image (bytes `rs`, size `rw` x `rh`, layout
/// `layout`) and nearest-stretched to `tw` x `th`.
pub open spec fn is_treated_sliver<F: Fn(DynamicImage) -> DynamicImage>(
    treatment: F,
    rs: Seq<u8>,
    rw: u32,
    rh: u32,
    layout: nat,
    c: Coords,
    tw: u32,
    th: u32,
    soft: DynamicImage,
) -> bool {
    exists|stretched: DynamicImage|
        img_data(stretched) == resized_of(
            cropped_of(rs, rw, rh, c.x, c.y, c.w, c.h),
            c.w,
            c.h,
            layout,
            tw,
            th,
            true,
        ) && img_w(stretched) == tw && img_h(stretched) == th && img_layout(stretched) == layout
            && #[trigger] call_ensures(treatment, (stretched,), soft)
}

/// The composited letterbox frame built from a rotated image (bytes `rs`,
/// size `rw` x `rh`, layout `layout`) that fills the screen on neither
/// axis: the two treated slivers — where their crops are not empty — laid
/// onto a black canvas, the first at the origin and the second flush with
/// the trailing edge of the leftover axis, abutting at the screen's
/// center, and the Lanczos-fitted foreground centered on top.
pub open spec fn composed_frame<F: Fn(DynamicImage) -> DynamicImage>(
    treatment: F,
    rs: Seq<u8>,
    rw: u32,
    rh: u32,
    layout: nat,
    screen: Dimensions,
    out: Seq<u8>,
) -> bool {
    let pair = crop_pair_spec(rw as int, rh as int, screen.w as int, screen.h as int);
    let c1 = (Coords {
        x: pair.0.0 as u32,
        y: pair.0.1 as u32,
        w: pair.0.2 as u32,
        h: pair.0.3 as u32,
    });
    let c2 = (Coords {
        x: pair.1.0 as u32,
        y: pair.1.1 as u32,
        w: pair.1.2 as u32,
        h: pair.1.3 as u32,
    });
    let fw = fit_width(rw as int, rh as int, screen.w as int, screen.h as int) as u32;
    let fh = fit_height(rw as int, rh as int, screen.w as int, screen.h as int) as u32;
    let vertical = fw < screen.w;
    let s1w = if vertical {
        (screen.w - screen.w / 2) as u32
    } else {
        screen.w
    };
    let s1h = if vertical {
        screen.h
    } else {
        (screen.h - screen.h / 2) as u32
    };
    let s2w = if vertical {
        (screen.w / 2) as u32
    } else {
        screen.w
    };
    let s2h = if vertical {
        screen.h
    } else {
        (screen.h / 2) as u32
    };
    let x2 = if vertical {
        (screen.w - screen.w / 2) as i64
    } else {
        0
    };
    let y2 = if vertical {
        0
    } else {
        (screen.h - screen.h / 2) as i64
    };
    let guard1 = c1.w >= 1 && c1.h >= 1;
    let guard2 = c2.w >= 1 && c2.h >= 1 && s2w >= 1 && s2h >= 1;
    let canvas0 = zero_bytes(3 * screen.w as int * screen.h as int);
    exists|soft1: DynamicImage, soft2: DynamicImage|
        #![trigger img_data(soft1), img_data(soft2)]
        {
            let canvas1 = if guard1 {
                overlaid_of(
                    canvas0,
                    screen.w,
                    screen.h,
                    rgb8_layout(),
                    img_data(soft1),
                    img_w(soft1),
                    img_h(soft1),
                    img_layout(soft1),
                    0,
                    0,
                )
            } else {
                canvas0
            };
            let canvas2 = if guard2 {
                overlaid_of(
                    canvas1,
                    screen.w,
                    screen.h,
                    rgb8_layout(),
                    img_data(soft2),
                    img_w(soft2),
                    img_h(soft2),
                    img_layout(soft2),
                    x2,
                    y2,
                )
            } else {
                canvas1
            };
            &&& (guard1 ==> is_treated_sliver(treatment, rs, rw, rh, layout, c1, s1w, s1h, soft1))
            &&& (guard2 ==> is_treated_sliver(treatment, rs, rw, rh, layout, c2, s2w, s2h, soft2))
            &&& out == overlaid_of(
                canvas2,
                screen.w,
                screen.h,
                rgb8_layout(),
                resized_of(rs, rw, rh, layout, fw, fh, false),
                fw,
                fh,
                layout,
                ((screen.w - fw + 1) / 2) as i64,
                ((screen.h - fh + 1) / 2) as i64,
            )
        }
}

/// Rotates the image and fits it to the screen; any letterbox space is
/// filled with the two background slivers cropped from the photo's own
/// edges, stretched to their half of the screen and softened by
/// `treatment`. When the rotated photo already equals the screen it is
/// returned as it is; when the fitted foreground fills the screen to
/// within a pixel, it alone is returned, stretched to exactly the screen.
/// In both cases no background is generated — in particular, `treatment`
/// is never invoked.
pub fn fit_to_screen_and_add_background<F: Fn(DynamicImage) -> DynamicImage>(
    img: &DynamicImage,
    screen: Dimensions,
    rotation: Rotation,
    treatment: F,
) -> (r: DynamicImage)
    requires
        img_w(*img) >= 1,
        img_h(*img) >= 1,
        screen.wf(),
        screen.w as int * screen.h as int * 16 <= usize::MAX as int,
        forall|i: DynamicImage| call_requires(treatment, (i,)),
    ensures
        img_w(r) == screen.w,
        img_h(r) == screen.h,
        ({
            let rs = rotated_data(img_data(*img), img_w(*img), img_h(*img), rotation);
            let rw = rotated_w(img_w(*img), img_h(*img), rotation);
            let rh = rotated_h(img_w(*img), img_h(*img), rotation);
            let layout = img_layout(*img);
            if rw == screen.w && rh == screen.h {
                img_data(r) == rs && img_layout(r) == layout
            } else if fills_screen(rw as int, rh as int, screen.w as int, screen.h as int) {
                img_data(r) == resized_of(rs, rw, rh, layout, screen.w, screen.h, false)
                    && img_layout(r) == layout
            } else {
                composed_frame(treatment, rs, rw, rh, layout, screen, img_data(r)) && img_layout(r)
                    == rgb8_layout()
            }
        }),
{
    let rotated = rotate(img, rotation);
    let rd = dimensions_of(&rotated);
    if rd.w == screen.w && rd.h == screen.h {
        return rotated;
    }
    if rd.fits_screen_within_pixel(screen) {
        /* Less than one pixel of letterbox would show on either axis:
        stretch the sub-pixel remainder away and let the foreground alone
        fill the screen. */
        return resize_convolution(&rotated, screen.w, screen.h);
    }
    let fg = rd.resize(screen);
    proof {
        assert(fg.w as int * fg.h as int * 16 <= screen.w as int * screen.h as int * 16)
            by (nonlinear_arith)
            requires
                0 <= fg.w <= screen.w,
                0 <= fg.h <= screen.h,
        ;
    }
    let foreground = resize_convolution(&rotated, fg.w, fg.h);
    let (c1, c2) = rd.background_crops(screen);
    proof {
        assert(screen.w as int * screen.h as int * 16 <= usize::MAX as int ==> (screen.w / 2) as int
            * screen.h as int * 16 <= usize::MAX as int && screen.w as int * (screen.h / 2) as int
            * 16 <= usize::MAX as int && (screen.w - screen.w / 2) as int * screen.h as int * 16
            <= usize::MAX as int && screen.w as int * (screen.h - screen.h / 2) as int * 16
            <= usize::MAX as int) by (nonlinear_arith)
            requires
                1 <= screen.w,
                1 <= screen.h,
        ;
    }
    let vertical = fg.w < screen.w;
    let (s1w, s1h): (u32, u32) = if vertical {
        /* The foreground leaves side bands: the left and right slivers each
        take their half of the screen, abutting at its center behind it. */
        (screen.w - screen.w / 2, screen.h)
    } else {
        /* Top and bottom bands. */
        (screen.w, screen.h - screen.h / 2)
    };
    let (s2w, s2h): (u32, u32) = if vertical {
        (screen.w / 2, screen.h)
    } else {
        (screen.w, screen.h / 2)
    };
    let ghost mut stretched1 = rotated;
    let ghost mut stretched2 = rotated;
    let soft1: Option<DynamicImage> = if c1.w >= 1 && c1.h >= 1 {
        let strip = crop_image(&rotated, c1);
        let stretched = resize_nearest(&strip, s1w, s1h);
        proof {
            stretched1 = stretched;
        }
        Some(treatment(stretched))
    } else {
        None
    };
    let soft2: Option<DynamicImage> = if c2.w >= 1 && c2.h >= 1 && s2w >= 1 && s2h >= 1 {
        let strip = crop_image(&rotated, c2);
        let stretched = resize_nearest(&strip, s2w, s2h);
        proof {
            stretched2 = stretched;
        }
        Some(treatment(stretched))
    } else {
        None
    };
    let mut canvas = new_canvas(screen.w, screen.h);
    match &soft1 {
        Some(soft) => overlay_at(&mut canvas, soft, 0, 0),
        None => (),
    }
    match &soft2 {
        Some(soft) => {
            let (x2, y2): (u32, u32) = if vertical {
                (screen.w - s2w, 0)
            } else {
                (0, screen.h - s2h)
            };
            overlay_at(&mut canvas, soft, x2 as i64, y2 as i64);
        },
        None => (),
    }
    let (dw, dh) = screen.diff(fg);
    overlay_at(
        &mut canvas,
        &foreground,
        ((dw as u64 + 1) / 2) as i64,
        ((dh as u64 + 1) / 2) as i64,
    );
    proof {
        let rs = img_data(rotated);
        let layout = img_layout(rotated);
        let wit1 = if soft1 is Some {
            soft1->0
        } else {
            rotated
        };
        let wit2 = if soft2 is Some {
            soft2->0
        } else {
            rotated
        };
        if c1.w >= 1 && c1.h >= 1 {
            assert(call_ensures(treatment, (stretched1,), wit1));
            assert(is_treated_sliver(treatment, rs, rd.w, rd.h, layout, c1, s1w, s1h, wit1));
        }
        if c2.w >= 1 && c2.h >= 1 && s2w >= 1 && s2h >= 1 {
            assert(call_ensures(treatment, (stretched2,), wit2));
            assert(is_treated_sliver(treatment, rs, rd.w, rd.h, layout, c2, s2w, s2h, wit2));
        }
        assert(composed_frame(treatment, rs, rd.w, rd.h, layout, screen, img_data(canvas)));
    }
    canvas
}

/// Draws the update icon into the corner of the image that stays visually
/// top-left once the screen rotation is applied.
pub fn overlay_update_icon(img: &mut DynamicImage, update_icon: &DynamicImage, rotation: Rotation)
    requires
        match rotation {
            Rotation::D0 => true,
            Rotation::D90 => img_w(*old(img)) >= img_h(*update_icon),
            Rotation::D180 => img_w(*old(img)) >= img_w(*update_icon) && img_h(*old(img)) >= img_h(
                *update_icon,
            ),
            Rotation::D270 => img_h(*old(img)) >= img_w(*update_icon),
        },
    ensures
        img_w(*final(img)) == img_w(*old(img)),
        img_h(*final(img)) == img_h(*old(img)),
        img_layout(*final(img)) == img_layout(*old(img)),
        ({
            let xo: int = match rotation {
                Rotation::D0 => 0,
                Rotation::D90 => img_w(*old(img)) - img_h(*update_icon),
                Rotation::D180 => img_w(*old(img)) - img_w(*update_icon),
                Rotation::D270 => 0,
            };
            let yo: int = match rotation {
                Rotation::D0 => 0,
                Rotation::D90 => 0,
                Rotation::D180 => img_h(*old(img)) - img_h(*update_icon),
                Rotation::D270 => img_h(*old(img)) - img_w(*update_icon),
            };
            img_data(*final(img)) == overlaid_of(
                img_data(*old(img)),
                img_w(*old(img)),
                img_h(*old(img)),
                img_layout(*old(img)),
                img_data(*update_icon),
                img_w(*update_icon),
                img_h(*update_icon),
                img_layout(*update_icon),
                xo as i64,
                yo as i64,
            )
        }),
{
    let d = dimensions_of(img);
    let icon = dimensions_of(update_icon);
    let (x_offset, y_offset): (u32, u32) = match rotation {
        Rotation::D0 => (0, 0),
        Rotation::D90 => (d.w - icon.h, 0),
        Rotation::D180 => (d.w - icon.w, d.h - icon.h),
        Rotation::D270 => (0, d.h - icon.w),
    };
    overlay_at(img, update_icon, x_offset as i64, y_offset as i64);
}

} // verus!
