//! Fitting an image into a fixed canvas: scale it down or up to the largest
//! size that fits, centre it, and pad the rest with transparency.
use vstd::prelude::*;
use crate::raster::{CanvasSpec, Raster, transparent_pixel};

verus! {

/// The size `image::DynamicImage::resize` gives an image of the first two
/// sizes when asked to fit it within the last two.
pub uninterp spec fn fitted_size(src_w: nat, src_h: nat, max_w: nat, max_h: nat) -> (nat, nat);

/// What the `image` crate's alpha blend of an RGBA pixel `top` over `bottom`
/// leaves in `bottom`, where `top` is neither fully transparent nor opaque.
pub uninterp spec fn blended(bottom: Seq<u8>, top: Seq<u8>) -> Seq<u8>;

/// The pixel left after compositing `top` over `bottom`: a fully
/// transparent `top` leaves `bottom` alone, an opaque one replaces it, and
/// anything between is blended.
pub open spec fn composite(bottom: Seq<u8>, top: Seq<u8>) -> Seq<u8> {
    if top[3] == 0 {
        bottom
    } else if top[3] == 255 {
        top
    } else {
        blended(bottom, top)
    }
}

/// Padding in front of content of length `content` centred in `target`:
/// half the slack, rounded down, so an odd pixel falls behind the content.
pub open spec fn padding_before(target: int, content: int) -> int {
    (target - content) / 2
}

/// Whether canvas position `(x, y)` lies in the region that content of the
/// given size occupies once centred on `target`.
pub open spec fn in_content(target: CanvasSpec, content_w: int, content_h: int, x: int, y: int) -> bool {
    let left = padding_before(target.width as int, content_w);
    let top = padding_before(target.height as int, content_h);
    left <= x < left + content_w && top <= y < top + content_h
}

/// `out` is `content` centred on an otherwise transparent canvas of size
/// `target`.
pub open spec fn letterboxed(out: Raster, content: Raster, target: CanvasSpec) -> bool {
    let left = padding_before(target.width as int, content.width as int);
    let top = padding_before(target.height as int, content.height as int);
    &&& out.wf()
    &&& out.width == target.width
    &&& out.height == target.height
    &&& forall|x: int, y: int|
        out.contains(x, y) ==> #[trigger] out.pixel(x, y) == if in_content(
            target,
            content.width as int,
            content.height as int,
            x,
            y,
        ) {
            composite(transparent_pixel(), content.pixel(x - left, y - top))
        } else {
            transparent_pixel()
        }
}

/// Calls `image::DynamicImage::resize` with the Lanczos3 filter. Claims what
/// its documentation and first lines state: the result is the largest size
/// of the source's aspect ratio that fits within the canvas, never empty,
/// so one of its sides is the canvas's, and a source of the canvas's own
/// aspect ratio fills the canvas; that size depends on the four lengths
/// alone; and a source that already has the canvas's size comes back
/// unchanged. Nothing is claimed of the resampled pixel values: the filter's
/// kernel takes a sine, whose last digits std leaves to the platform, so
/// they need not be the same on every machine.
#[verifier::external_body]
fn resample_within(image: &Raster, canvas: CanvasSpec) -> (r: Raster)
    requires
        image.wf(),
        canvas.valid(),
    ensures
        r.wf(),
        r.width <= canvas.width,
        r.height <= canvas.height,
        r.width == canvas.width || r.height == canvas.height,
        (r.width as nat, r.height as nat) == fitted_size(
            image.width as nat,
            image.height as nat,
            canvas.width as nat,
            canvas.height as nat,
        ),
        image.width * canvas.height == image.height * canvas.width ==> r.width == canvas.width
            && r.height == canvas.height,
        image.width == canvas.width && image.height == canvas.height ==> r.pixels@
            == image.pixels@,
{
    let source = image::RgbaImage::from_raw(image.width, image.height, image.pixels.clone());
    let resized = image::DynamicImage::ImageRgba8(source.unwrap())
        .resize(canvas.width, canvas.height, image::imageops::FilterType::Lanczos3)
        .into_rgba8();
    Raster { width: resized.width(), height: resized.height(), pixels: resized.into_raw() }
}

/// Calls `image::imageops::overlay` to composite `top` onto `bottom` with
/// its corner at `(x, y)`. Claims what the function's loop shows: the size
/// is kept, each pixel under `top` becomes the blend of `top`'s pixel over
/// it, and every other pixel is untouched.
#[verifier::external_body]
fn overlay(bottom: Raster, top: &Raster, x: u32, y: u32) -> (r: Raster)
    requires
        bottom.wf(),
        top.wf(),
        x + top.width <= bottom.width,
        y + top.height <= bottom.height,
    ensures
        r.wf(),
        r.width == bottom.width,
        r.height == bottom.height,
        forall|px: int, py: int|
            r.contains(px, py) ==> #[trigger] r.pixel(px, py) == if x <= px < x + top.width && y
                <= py < y + top.height {
                if top.pixel(px - x, py - y)[3] == 0 {
                    bottom.pixel(px, py)
                } else if top.pixel(px - x, py - y)[3] == 255 {
                    top.pixel(px - x, py - y)
                } else {
                    blended(bottom.pixel(px, py), top.pixel(px - x, py - y))
                }
            } else {
                bottom.pixel(px, py)
            },
{
    let mut canvas = image::RgbaImage::from_raw(bottom.width, bottom.height, bottom.pixels).unwrap();
    let content = image::RgbaImage::from_raw(top.width, top.height, top.pixels.clone()).unwrap();
    image::imageops::overlay(&mut canvas, &content, i64::from(x), i64::from(y));
    Raster { width: bottom.width, height: bottom.height, pixels: canvas.into_raw() }
}

/// The offsets of content of the given size centred on `target`.
pub fn centering_offsets(target: CanvasSpec, content_w: u32, content_h: u32) -> (at: (u32, u32))
    requires
        content_w <= target.width,
        content_h <= target.height,
    ensures
        at.0 == padding_before(target.width as int, content_w as int),
        at.1 == padding_before(target.height as int, content_h as int),
        at.0 + content_w <= target.width,
        at.1 + content_h <= target.height,
{
    ((target.width - content_w) / 2, (target.height - content_h) / 2)
}

/// Centres `content` on a transparent canvas of size `target`.
pub fn letterbox(content: &Raster, target: CanvasSpec) -> (out: Raster)
    requires
        content.wf(),
        target.valid(),
        content.width <= target.width,
        content.height <= target.height,
    ensures
        letterboxed(out, *content, target),
{
    let canvas = Raster::transparent(target);
    let (left, top) = centering_offsets(target, content.width, content.height);
    let out = overlay(canvas, content, left, top);
    assert forall|x: int, y: int| out.contains(x, y) implies #[trigger] out.pixel(x, y) == if in_content(
        target,
        content.width as int,
        content.height as int,
        x,
        y,
    ) {
        composite(transparent_pixel(), content.pixel(x - left, y - top))
    } else {
        transparent_pixel()
    } by {
        assert(canvas.contains(x, y));
        assert(canvas.pixel(x, y) == transparent_pixel());
    }
    out
}

/// The size that `image` has once scaled to fit within `target`.
pub open spec fn content_size(image: Raster, target: CanvasSpec) -> (nat, nat) {
    fitted_size(
        image.width as nat,
        image.height as nat,
        target.width as nat,
        target.height as nat,
    )
}

/// `out` is `image` fitted into `target`: a canvas of exactly the target's
/// size that holds, centred, some scaled copy of the image of the largest
/// size that fits, which reaches the target on one side at least, and is
/// transparent everywhere else. An image of the target's
/// aspect ratio is scaled to the target's size, and one of the target's
/// size is not resampled at all.
pub open spec fn fitted_into(image: Raster, target: CanvasSpec, out: Raster) -> bool {
    &&& out.wf()
    &&& out.width == target.width
    &&& out.height == target.height
    &&& 1 <= content_size(image, target).0 <= target.width
    &&& 1 <= content_size(image, target).1 <= target.height
    &&& content_size(image, target).0 == target.width || content_size(image, target).1
        == target.height
    &&& image.width * target.height == image.height * target.width ==> content_size(image, target)
        == (target.width as nat, target.height as nat)
    &&& exists|content: Raster|
        {
            &&& content.wf()
            &&& (content.width as nat, content.height as nat) == content_size(image, target)
            &&& #[trigger] letterboxed(out, content, target)
        }
    &&& forall|x: int, y: int|
        out.contains(x, y) && !in_content(
            target,
            content_size(image, target).0 as int,
            content_size(image, target).1 as int,
            x,
            y,
        ) ==> #[trigger] out.pixel(x, y) == transparent_pixel()
    &&& image.width == target.width && image.height == target.height ==> letterboxed(
        out,
        image,
        target,
    )
}

/// Scales `image` to the largest size of its aspect ratio that fits within
/// `target`, and centres the result on a transparent canvas of exactly that
/// size.
pub fn fit(image: &Raster, target: CanvasSpec) -> (out: Raster)
    requires
        image.wf(),
        target.valid(),
    ensures
        fitted_into(*image, target, out),
{
    let content = resample_within(image, target);
    let out = letterbox(&content, target);
    proof {
        if image.width == target.width && image.height == target.height {
            assert forall|x: int, y: int| content.pixel(x, y) == image.pixel(x, y) by {}
        }
    }
    out
}

/// Centred content leaves its padding split evenly, and where the slack is
/// odd the one extra pixel lies behind the content (right or bottom), never
/// in front of it (left or top).
pub proof fn lemma_odd_padding_falls_behind(target: int, content: int)
    requires
        0 <= content <= target,
    ensures
        0 <= padding_before(target, content),
        padding_before(target, content) + content <= target,
        target - content - padding_before(target, content) == padding_before(target, content) + (
        target - content) % 2,
        content + 1 == target ==> padding_before(target, content) == 0,
{
}

/// Content of the canvas's size, which is what a source of the canvas's
/// aspect ratio is scaled to, is placed at `(0, 0)` and covers every pixel
/// of the canvas.
pub proof fn lemma_full_size_content_has_no_padding(target: CanvasSpec, content: Raster)
    requires
        target.valid(),
        content.width == target.width,
        content.height == target.height,
    ensures
        padding_before(target.width as int, content.width as int) == 0,
        padding_before(target.height as int, content.height as int) == 0,
        forall|x: int, y: int|
            0 <= x < target.width && 0 <= y < target.height ==> in_content(
                target,
                content.width as int,
                content.height as int,
                x,
                y,
            ),
        forall|out: Raster, x: int, y: int|
            letterboxed(out, content, target) && out.contains(x, y) ==> #[trigger] out.pixel(x, y)
                == composite(transparent_pixel(), content.pixel(x, y)),
{
}

} // verus!
