//! Window sizing from image dimensions, anchor-preserving repositioning and
//! keeping a window inside the monitor, all in whole pixels.
use vstd::prelude::*;

verus! {

/// A width and a height in pixels.
#[derive(Clone, Copy, Debug, PartialEq, Eq, Structural)]
pub struct Size {
    pub width: u32,
    pub height: u32,
}

/// A screen position in pixels; may be negative on multi-monitor setups.
#[derive(Clone, Copy, Debug, PartialEq, Eq, Structural)]
pub struct Pos {
    pub x: i32,
    pub y: i32,
}

/// A rectangle in image pixel coordinates.
#[derive(Clone, Copy, Debug, PartialEq, Eq, Structural)]
pub struct Rect {
    pub x: u32,
    pub y: u32,
    pub width: u32,
    pub height: u32,
}

/// How the window size relates to the image's aspect ratio.
#[derive(Clone, Copy, Debug, PartialEq, Eq, Structural)]
pub enum FitMode {
    /// Fixed preset size; the image is cropped to fill it.
    Cover,
    /// One side pinned to the preset, the other follows the image; no cropping.
    Contain,
}

/// The window point whose screen position stays fixed across a resize.
#[derive(Clone, Copy, Debug, PartialEq, Eq, Structural)]
pub enum ResizeAnchor {
    Center,
    TopLeft,
    TopRight,
    BottomLeft,
    BottomRight,
}

/// Window size presets, one per image orientation.
#[derive(Clone, Copy, Debug, PartialEq, Eq, Structural)]
pub struct Presets {
    pub landscape: Size,
    pub portrait: Size,
}

/// An image is landscape when it is at least as wide as it is tall.
pub open spec fn is_landscape(image: Size) -> bool {
    image.width >= image.height
}

pub open spec fn preset_for(image: Size, presets: Presets) -> Size {
    if is_landscape(image) {
        presets.landscape
    } else {
        presets.portrait
    }
}

/// The window size for an image. Under `Contain` a landscape image keeps the
/// preset width and a portrait image the preset height; the other side is
/// scaled by the image's aspect ratio and rounded down. An image with a zero
/// side has no aspect ratio and gets the preset.
pub open spec fn target_size_of(image: Size, fit: FitMode, presets: Presets) -> Size {
    let p = preset_for(image, presets);
    match fit {
        FitMode::Cover => p,
        FitMode::Contain => {
            if image.width == 0 || image.height == 0 {
                p
            } else if is_landscape(image) {
                Size {
                    width: p.width,
                    height: (p.width * image.height / image.width as int) as u32,
                }
            } else {
                Size {
                    width: (p.height * image.width / image.height as int) as u32,
                    height: p.height,
                }
            }
        },
    }
}

/// The exact product of two `u32` values.
fn wide_mul(a: u32, b: u32) -> (r: u64)
    ensures
        r == a * b,
{
    proof {
        assert(0 <= a * b <= u32::MAX * u32::MAX) by (nonlinear_arith)
            requires
                a <= u32::MAX,
                b <= u32::MAX,
        ;
    }
    (a as u64) * (b as u64)
}

/// `a * n / d`, rounded down, where the caller knows it is at most `bound`.
fn scale_bounded(a: u32, n: u32, d: u32, bound: u32) -> (r: u32)
    requires
        0 < d,
        a * n <= bound * d,
    ensures
        r == a * n / d as int,
        r <= bound,
{
    proof {
        assert(a * n / d as int <= bound) by (nonlinear_arith)
            requires
                a * n <= bound * d,
                0 < d,
        ;
        assert(0 <= a * n) by (nonlinear_arith);
        assert(0 <= a * n / d as int) by (nonlinear_arith)
            requires
                0 <= a * n,
                0 < d,
        ;
    }
    (wide_mul(a, n) / (d as u64)) as u32
}

/// `a * n / d`, rounded down, for `n <= d`, computed without overflow.
fn scale_down(a: u32, n: u32, d: u32) -> (r: u32)
    requires
        0 < d,
        n <= d,
    ensures
        r == a * n / d as int,
        r <= a,
{
    proof {
        assert(a * n <= a * d) by (nonlinear_arith)
            requires
                n <= d,
        ;
    }
    scale_bounded(a, n, d, a)
}

/// Computes the window size for an image of the given dimensions.
pub fn target_size(image: Size, fit: FitMode, presets: Presets) -> (r: Size)
    ensures
        r == target_size_of(image, fit, presets),
{
    let p = if image.width >= image.height {
        presets.landscape
    } else {
        presets.portrait
    };
    match fit {
        FitMode::Cover => p,
        FitMode::Contain => {
            if image.width == 0 || image.height == 0 {
                p
            } else if image.width >= image.height {
                Size { width: p.width, height: scale_down(p.width, image.height, image.width) }
            } else {
                Size { width: scale_down(p.height, image.width, image.height), height: p.height }
            }
        },
    }
}

/// The part of an image shown in a box under `Cover`: the largest centered
/// rectangle with the box's aspect ratio. When the image is relatively wider
/// than the box the sides are cut, otherwise the top and bottom. Its width (or
/// height) is rounded down, and the cut is split evenly, the odd pixel going
/// to the far side. With a zero side anywhere, the whole image.
pub open spec fn cover_crop_of(image: Size, frame: Size) -> Rect {
    let full = Rect { x: 0, y: 0, width: image.width, height: image.height };
    if image.width == 0 || image.height == 0 || frame.width == 0 || frame.height == 0 {
        full
    } else if image.width * frame.height > image.height * frame.width {
        let w = image.height * frame.width / frame.height as int;
        Rect { x: ((image.width - w) / 2) as u32, y: 0, width: w as u32, height: image.height }
    } else {
        let h = image.width * frame.height / frame.width as int;
        Rect { x: 0, y: ((image.height - h) / 2) as u32, width: image.width, height: h as u32 }
    }
}

/// Computes the region of the image that fills a box of the given size under
/// `Cover`.
pub fn cover_crop(image: Size, frame: Size) -> (r: Rect)
    ensures
        r == cover_crop_of(image, frame),
        r.x + r.width <= image.width,
        r.y + r.height <= image.height,
{
    if image.width == 0 || image.height == 0 || frame.width == 0 || frame.height == 0 {
        return Rect { x: 0, y: 0, width: image.width, height: image.height };
    }
    let wide = wide_mul(image.width, frame.height);
    let tall = wide_mul(image.height, frame.width);
    if wide > tall {
        let w = scale_bounded(image.height, frame.width, frame.height, image.width);
        Rect { x: (image.width - w) / 2, y: 0, width: w, height: image.height }
    } else {
        let h = scale_bounded(image.width, frame.height, frame.width, image.height);
        Rect { x: 0, y: (image.height - h) / 2, width: image.width, height: h }
    }
}

/// Half of `d`, rounded toward negative infinity.
pub open spec fn half(d: int) -> int {
    if d >= 0 {
        d / 2
    } else {
        -((-d + 1) / 2)
    }
}

/// How far the window's top-left corner moves back so that the anchor stays
/// put when the size grows by `(dx, dy)`.
pub open spec fn anchor_offset(anchor: ResizeAnchor, dx: int, dy: int) -> (int, int) {
    match anchor {
        ResizeAnchor::Center => (half(dx), half(dy)),
        ResizeAnchor::TopLeft => (0, 0),
        ResizeAnchor::TopRight => (dx, 0),
        ResizeAnchor::BottomLeft => (0, dy),
        ResizeAnchor::BottomRight => (dx, dy),
    }
}

/// The new top-left corner after a resize from `old` to `new`, as exact
/// integers.
pub open spec fn reposition_of(old: Size, new: Size, anchor: ResizeAnchor, pos: Pos) -> (int, int) {
    let off = anchor_offset(anchor, new.width - old.width, new.height - old.height);
    (pos.x - off.0, pos.y - off.1)
}

pub open spec fn fits_i32(v: int) -> bool {
    i32::MIN <= v <= i32::MAX
}

fn half_exec(d: i64) -> (r: i64)
    requires
        -0x1_0000_0000 <= d <= 0x1_0000_0000,
    ensures
        r == half(d as int),
{
    if d >= 0 {
        d / 2
    } else {
        -((-d + 1) / 2)
    }
}

/// Computes the window position that keeps `anchor` fixed on screen when
/// the window goes from `old` to `new`, or `None` when that position lies
/// outside the `i32` range.
pub fn try_reposition_for_resize(old: Size, new: Size, anchor: ResizeAnchor, pos: Pos) -> (r: Option<Pos>)
    ensures
        r.is_some() == (fits_i32(reposition_of(old, new, anchor, pos).0) && fits_i32(
            reposition_of(old, new, anchor, pos).1,
        )),
        r.is_some() ==> r.unwrap().x == reposition_of(old, new, anchor, pos).0 && r.unwrap().y
            == reposition_of(old, new, anchor, pos).1,
{
    let dx: i64 = new.width as i64 - old.width as i64;
    let dy: i64 = new.height as i64 - old.height as i64;
    let (ox, oy): (i64, i64) = match anchor {
        ResizeAnchor::Center => (half_exec(dx), half_exec(dy)),
        ResizeAnchor::TopLeft => (0, 0),
        ResizeAnchor::TopRight => (dx, 0),
        ResizeAnchor::BottomLeft => (0, dy),
        ResizeAnchor::BottomRight => (dx, dy),
    };
    let x: i64 = pos.x as i64 - ox;
    let y: i64 = pos.y as i64 - oy;
    if i32::MIN as i64 <= x && x <= i32::MAX as i64 && i32::MIN as i64 <= y && y <= i32::MAX as i64 {
        Some(Pos { x: x as i32, y: y as i32 })
    } else {
        None
    }
}

/// Computes the window position that keeps `anchor` fixed on screen when
/// the window goes from `old` to `new`.
pub fn reposition_for_resize(old: Size, new: Size, anchor: ResizeAnchor, pos: Pos) -> (r: Pos)
    requires
        fits_i32(reposition_of(old, new, anchor, pos).0),
        fits_i32(reposition_of(old, new, anchor, pos).1),
    ensures
        r.x == reposition_of(old, new, anchor, pos).0,
        r.y == reposition_of(old, new, anchor, pos).1,
{
    match try_reposition_for_resize(old, new, anchor, pos) {
        Some(p) => p,
        None => pos,
    }
}

/// One coordinate kept inside `[0, extent - length]`, with 0 winning when the
/// window is longer than the monitor.
pub open spec fn clamp_axis(p: int, length: int, extent: int) -> int {
    let hi = extent - length;
    let m = if p < hi { p } else { hi };
    if m < 0 {
        0
    } else {
        m
    }
}

fn clamp_axis_exec(p: i32, length: u32, extent: u32) -> (r: i32)
    ensures
        r == clamp_axis(p as int, length as int, extent as int),
{
    let hi: i64 = extent as i64 - length as i64;
    let m: i64 = if (p as i64) < hi {
        p as i64
    } else {
        hi
    };
    if m < 0 {
        0
    } else {
        m as i32
    }
}

/// Moves a window of `size` at `pos` back inside a monitor of `monitor`.
pub fn clamp_to_monitor(pos: Pos, size: Size, monitor: Size) -> (r: Pos)
    ensures
        r.x == clamp_axis(pos.x as int, size.width as int, monitor.width as int),
        r.y == clamp_axis(pos.y as int, size.height as int, monitor.height as int),
{
    Pos {
        x: clamp_axis_exec(pos.x, size.width, monitor.width),
        y: clamp_axis_exec(pos.y, size.height, monitor.height),
    }
}

/// Under `Cover` the window takes the preset of the image's orientation,
/// whatever the image's aspect ratio.
pub proof fn lemma_cover_is_preset(image: Size, presets: Presets)
    ensures
        target_size_of(image, FitMode::Cover, presets) == preset_for(image, presets),
        is_landscape(image) ==> target_size_of(image, FitMode::Cover, presets) == presets.landscape,
        !is_landscape(image) ==> target_size_of(image, FitMode::Cover, presets) == presets.portrait,
{
}

/// Under `Contain` a landscape image keeps the preset width exactly, and the
/// height is the preset width divided by the image's aspect ratio, less than
/// one pixel below the exact quotient.
pub proof fn lemma_contain_landscape(image: Size, presets: Presets)
    requires
        is_landscape(image),
        image.height > 0,
    ensures
        target_size_of(image, FitMode::Contain, presets).width == presets.landscape.width,
        target_size_of(image, FitMode::Contain, presets).height * image.width
            <= presets.landscape.width * image.height,
        presets.landscape.width * image.height
            < (target_size_of(image, FitMode::Contain, presets).height + 1) * image.width,
{
    let pw = presets.landscape.width as int;
    let w = image.width as int;
    let h = image.height as int;
    let q = pw * h / w;
    assert(q * w <= pw * h < (q + 1) * w) by (nonlinear_arith)
        requires
            w > 0,
            q == pw * h / w,
    ;
    assert(pw * h <= pw * w) by (nonlinear_arith)
        requires
            h <= w,
            pw >= 0,
    ;
    assert(q <= pw) by (nonlinear_arith)
        requires
            pw * h <= pw * w,
            w > 0,
            q == pw * h / w,
    ;
    assert(0 <= q) by (nonlinear_arith)
        requires
            pw >= 0,
            h >= 0,
            w > 0,
            q == pw * h / w,
    ;
}

/// With the top-left corner as anchor a resize never moves the window.
pub proof fn lemma_top_left_keeps_position(old: Size, new: Size, pos: Pos)
    ensures
        reposition_of(old, new, ResizeAnchor::TopLeft, pos) == (pos.x as int, pos.y as int),
{
}

} // verus!
