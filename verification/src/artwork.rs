//! Game artwork: which picture a pane shows, adopting a background load only
//! for the game still selected, and fitting cover art to a pane by
//! centre-cropping and scaling.

use vstd::prelude::*;
use crate::game::Game;

verus! {

/// An RGBA picture with 8-bit channels: an `image` buffer of pixels. The
/// buffer type's pixel parameter is bound by one of the crate's traits, so
/// the type is held whole here; the program around the library reads the
/// pixels to draw and shade them.
#[verifier::external_body]
pub struct RgbaImage {
    pub buffer: image::ImageBuffer<image::Rgba<u8>, Vec<u8>>,
}

/// The size of an RGBA image, as `(width, height)`.
pub uninterp spec fn image_dims(img: RgbaImage) -> (u32, u32);

/// Whether an RGBA buffer of `w` by `h` pixels can be allocated: its byte
/// length, four per pixel, fits in `usize`.
pub open spec fn fits(w: u32, h: u32) -> bool {
    4 * (w as int) * (h as int) <= usize::MAX
}

/// The image's width (`ImageBuffer::width`). Every image's buffer was
/// checked to fit when it was made.
#[verifier::external_body]
fn width_of(img: &RgbaImage) -> (w: u32)
    ensures
        w == image_dims(*img).0,
        fits(w, image_dims(*img).1),
{
    img.buffer.width()
}

/// The image's height (`ImageBuffer::height`).
#[verifier::external_body]
fn height_of(img: &RgbaImage) -> (h: u32)
    ensures
        h == image_dims(*img).1,
        fits(image_dims(*img).0, h),
{
    img.buffer.height()
}

/// The size of the picture encoded in `bytes`, when the decoder reads it.
pub uninterp spec fn decoded_dims(bytes: Seq<u8>) -> Option<(u32, u32)>;

/// Decodes the picture in `bytes` (`image::load_from_memory`, which guesses
/// the format from the bytes) and converts it to RGBA (`to_rgba8`); nothing
/// when the bytes hold no picture it can read. The result depends on the
/// bytes alone.
#[verifier::external_body]
fn decode_rgba(bytes: &[u8]) -> (r: Option<RgbaImage>)
    ensures
        r is Some <==> decoded_dims(bytes@) is Some,
        r is Some ==> image_dims(r->0) == decoded_dims(bytes@)->0,
{
    image::load_from_memory(bytes).ok().map(|d| RgbaImage { buffer: d.to_rgba8() })
}

/// The picture in `bytes` (cached or downloaded art), as RGBA; nothing when
/// the bytes hold no picture the decoder reads.
pub fn load_picture(bytes: &[u8]) -> (r: Option<RgbaImage>)
    ensures
        r is Some <==> decoded_dims(bytes@) is Some,
        r is Some ==> image_dims(r->0) == decoded_dims(bytes@)->0,
{
    decode_rgba(bytes)
}

/// A copy of the image (`ImageBuffer::clone`): the same pixels, of the same
/// size.
#[verifier::external_body]
fn clone_image(img: &RgbaImage) -> (c: RgbaImage)
    ensures
        c == *img,
        image_dims(c) == image_dims(*img),
{
    RgbaImage { buffer: img.buffer.clone() }
}

/// The `w` by `h` rectangle at `(x, y)` of `img`, copied out.
pub uninterp spec fn cropped(img: RgbaImage, x: u32, y: u32, w: u32, h: u32) -> RgbaImage;

/// `img` scaled to `w` by `h` with the triangle filter.
pub uninterp spec fn resized(img: RgbaImage, w: u32, h: u32) -> RgbaImage;

/// The `w` by `h` rectangle at `(x, y)` of the image, copied out
/// (`imageops::crop_imm` then `SubImage::to_image`); the rectangle lies
/// within the image, so it is not shrunk.
#[verifier::external_body]
fn crop_to_image(
    img: &RgbaImage,
    x: u32,
    y: u32,
    w: u32,
    h: u32,
) -> (c: RgbaImage)
    requires
        x + w <= image_dims(*img).0,
        y + h <= image_dims(*img).1,
    ensures
        c == cropped(*img, x, y, w, h),
        image_dims(c) == (w, h),
{
    RgbaImage { buffer: image::imageops::crop_imm(&img.buffer, x, y, w, h).to_image() }
}

/// The image scaled to `w` by `h` with the triangle filter
/// (`imageops::resize`). Its intermediate buffer is as wide as the image
/// and `h` high, so both it and the result must fit.
#[verifier::external_body]
fn resize_image(img: &RgbaImage, w: u32, h: u32) -> (r: RgbaImage)
    requires
        w > 0,
        h > 0,
        image_dims(*img).0 > 0,
        image_dims(*img).1 > 0,
        fits(image_dims(*img).0, h),
        fits(w, h),
    ensures
        r == resized(*img, w, h),
        image_dims(r) == (w, h),
{
    RgbaImage { buffer: image::imageops::resize(&img.buffer, w, h, image::imageops::FilterType::Triangle) }
}

/// The largest centred rectangle of a `sw` by `sh` source with the aspect of
/// a `tw` by `th` target, as `(x, y, width, height)`: full height and
/// cropped sides when the source is relatively wider, else full width and
/// cropped top and bottom.
pub open spec fn cover_crop_spec(sw: u32, sh: u32, tw: u32, th: u32) -> (u32, u32, u32, u32) {
    if (sw as int) * (th as int) >= (sh as int) * (tw as int) {
        let c = (sh as int) * (tw as int) / (th as int);
        let cw = if c < 1 { 1 } else if c > sw { sw as int } else { c };
        (((sw - cw) / 2) as u32, 0u32, cw as u32, sh)
    } else {
        let c = (sw as int) * (th as int) / (tw as int);
        let ch = if c < 1 { 1 } else if c > sh { sh as int } else { c };
        (0u32, ((sh - ch) / 2) as u32, sw, ch as u32)
    }
}

/// The crop rectangle of [`cover_crop_spec`].
pub fn cover_crop(sw: u32, sh: u32, tw: u32, th: u32) -> (r: (u32, u32, u32, u32))
    requires
        sw > 0,
        sh > 0,
        tw > 0,
        th > 0,
    ensures
        r == cover_crop_spec(sw, sh, tw, th),
        r.2 >= 1,
        r.3 >= 1,
        r.0 + r.2 <= sw,
        r.1 + r.3 <= sh,
{
    let a = wide_mul(sw, th);
    let b = wide_mul(sh, tw);
    let wide = a >= b;
    if wide {
        let c = b / (th as u64);
        let cw: u32 = if c < 1 { 1 } else if c > sw as u64 { sw } else { c as u32 };
        ((sw - cw) / 2, 0, cw, sh)
    } else {
        let c = a / (tw as u64);
        let ch: u32 = if c < 1 { 1 } else if c > sh as u64 { sh } else { c as u32 };
        (0, (sh - ch) / 2, sw, ch)
    }
}

/// Whether fitting a `sw` by `sh` source to a `tw` by `th` target can
/// allocate its buffers (always, when nothing is scaled).
pub open spec fn cover_fits(sw: u32, sh: u32, tw: u32, th: u32) -> bool {
    sw == 0 || sh == 0 || tw == 0 || th == 0 || (fits(tw, th) && fits(cover_crop_spec(sw, sh, tw, th).2, th))
}

/// What fitting `src` to a `tw` by `th` target gives: `src` itself when it
/// or the target is empty, else its centred crop of the target's aspect
/// ([`cover_crop_spec`]) scaled to `tw` by `th`.
pub open spec fn cover_resized(src: RgbaImage, tw: u32, th: u32) -> RgbaImage {
    let (sw, sh) = image_dims(src);
    if sw == 0 || sh == 0 || tw == 0 || th == 0 {
        src
    } else {
        let (x, y, w, h) = cover_crop_spec(sw, sh, tw, th);
        resized(cropped(src, x, y, w, h), tw, th)
    }
}

/// Scales `src` to cover a `tw` by `th` target, keeping its aspect ratio by
/// centre-cropping the overflow: the result is exactly `tw` by `th`. With
/// an empty source or target the source is returned as it is (a copy).
pub fn cover_resize(src: &RgbaImage, tw: u32, th: u32) -> (out: RgbaImage)
    requires
        cover_fits(image_dims(*src).0, image_dims(*src).1, tw, th),
    ensures
        out == cover_resized(*src, tw, th),
        (image_dims(*src).0 == 0 || image_dims(*src).1 == 0 || tw == 0 || th == 0) ==> image_dims(out) == image_dims(*src),
        (image_dims(*src).0 > 0 && image_dims(*src).1 > 0 && tw > 0 && th > 0) ==> image_dims(out) == (tw, th),
{
    let sw = width_of(src);
    let sh = height_of(src);
    if sw == 0 || sh == 0 || tw == 0 || th == 0 {
        return clone_image(src);
    }
    let (ox, oy, cw, ch) = cover_crop(sw, sh, tw, th);
    let cropped = crop_to_image(src, ox, oy, cw, ch);
    resize_image(&cropped, tw, th)
}

/// [`cover_resize`] where its buffers can be allocated; nothing where they
/// could not (the scaling would fail).
pub fn cover_resize_checked(src: &RgbaImage, tw: u32, th: u32) -> (out: Option<RgbaImage>)
    ensures
        out is Some <==> cover_fits(image_dims(*src).0, image_dims(*src).1, tw, th),
        out is Some ==> out->0 == cover_resized(*src, tw, th),
        out is Some && (image_dims(*src).0 == 0 || image_dims(*src).1 == 0 || tw == 0 || th == 0)
            ==> image_dims(out->0) == image_dims(*src),
        out is Some && image_dims(*src).0 > 0 && image_dims(*src).1 > 0 && tw > 0 && th > 0
            ==> image_dims(out->0) == (tw, th),
{
    let sw = width_of(src);
    let sh = height_of(src);
    if sw == 0 || sh == 0 || tw == 0 || th == 0 {
        return Some(cover_resize(src, tw, th));
    }
    let (_, _, cw, _) = cover_crop(sw, sh, tw, th);
    let ok = byte_len_fits(tw, th) && byte_len_fits(cw, th);
    if ok {
        Some(cover_resize(src, tw, th))
    } else {
        None
    }
}

/// The width, in cells, of the box that shows a `w` by `h` cover in a gap
/// `gap` rows tall (two pixels a row): the width that keeps the aspect
/// ratio, cut to 16 bits, then held between 1 and `limit`.
pub open spec fn cover_box_spec(gap: u16, w: u32, h: u32, limit: u16) -> u16 {
    let raw = ((gap as int) * 2 * (w as int) / (h as int)) as u16;
    if raw < 1 {
        1
    } else if raw > limit {
        limit
    } else {
        raw
    }
}

/// The box for the cover in the free rows above the detail rows, or
/// nothing for an empty picture.
pub fn cover_box_width(gap: u16, cover: &RgbaImage, limit: u16) -> (r: Option<u16>)
    requires
        limit >= 1,
    ensures
        (image_dims(*cover).0 == 0 || image_dims(*cover).1 == 0) <==> r is None,
        r is Some ==> r->0 == cover_box_spec(gap, image_dims(*cover).0, image_dims(*cover).1, limit),
{
    let w = width_of(cover);
    let h = height_of(cover);
    if w == 0 || h == 0 {
        return None;
    }
    let g2: u64 = (gap as u64) * 2;
    proof {
        assert((g2 as int) * (w as int) <= 131070 * 4294967295) by (nonlinear_arith)
            requires
                g2 <= 131070,
                w <= 4294967295u32,
        ;
    }
    let q: u64 = g2 * (w as u64) / (h as u64);
    let raw = q as u16;
    Some(if raw < 1 {
        1
    } else if raw > limit {
        limit
    } else {
        raw
    })
}

fn byte_len_fits(w: u32, h: u32) -> (b: bool)
    ensures
        b == fits(w, h),
{
    let n = wide_mul(w, h);
    let m: usize = usize::MAX / 4;
    proof {
        let mi = usize::MAX as int;
        assert((4 * (w as int) * (h as int) <= mi) == ((n as int) <= mi / 4)) by (nonlinear_arith)
            requires
                n as int == (w as int) * (h as int),
                mi > 0,
        ;
    }
    n <= m as u64
}

/// `a * b`, which fits in 64 bits.
fn wide_mul(a: u32, b: u32) -> (r: u64)
    ensures
        r == (a as int) * (b as int),
{
    assert((a as int) * (b as int) <= u64::MAX) by (nonlinear_arith)
        requires
            a <= u32::MAX,
            b <= u32::MAX,
    ;
    (a as u64) * (b as u64)
}

/// Which artwork a pane shows; each kind is cached and downloaded on its
/// own.
#[derive(Debug, Clone, Copy, PartialEq, Eq, Structural)]
pub enum ImageKind {
    /// The wide art behind the detail pane.
    Background,
    /// The portrait cover art.
    Cover,
}

impl ImageKind {
    /// The suffix of the cache file, so that each kind caches under its own
    /// name.
    pub fn suffix(self) -> (s: &'static str)
        ensures
            s@ == (match self {
                ImageKind::Background => ""@,
                ImageKind::Cover => "_cover"@,
            }),
    {
        match self {
            ImageKind::Background => "",
            ImageKind::Cover => "_cover",
        }
    }

    /// The address of this kind of art for `game`.
    pub fn url(self, game: &Game) -> (u: Option<String>)
        ensures
            u is Some <==> (match self {
                ImageKind::Background => game.icon_url is Some,
                ImageKind::Cover => game.cover_url is Some,
            }),
            u is Some ==> u->0@ == (match self {
                ImageKind::Background => game.icon_url->0@,
                ImageKind::Cover => game.cover_url->0@,
            }),
    {
        let src = match self {
            ImageKind::Background => &game.icon_url,
            ImageKind::Cover => &game.cover_url,
        };
        match src {
            Some(s) => Some(crate::text::owned(s.as_str())),
            None => None,
        }
    }
}

/// Points a pane at the selected game's art. Nothing changes while the
/// same game stays selected; otherwise the pane is cleared, records the new
/// game, and a load is due (answered `true`) when a game is selected.
pub fn select<T>(game_id: Option<i32>, requested: &mut Option<i32>, img: &mut Option<T>) -> (load: bool)
    ensures
        game_id == *old(requested) ==> !load && *final(requested) == *old(requested) && *final(img) == *old(img),
        game_id != *old(requested) ==> *final(requested) == game_id && *final(img) is None && load == (game_id is Some),
{
    if game_id == *requested {
        return false;
    }
    *requested = game_id;
    *img = None;
    game_id.is_some()
}

/// Adopts a loaded picture, but only when it is of the game still
/// requested: a slower load for a game since scrolled past is dropped.
pub fn poll<T>(requested: Option<i32>, img: &mut Option<T>, posted: Option<(i32, T)>)
    ensures
        (posted is Some && requested == Some((posted->0).0)) ==> *final(img) == Some((posted->0).1),
        !(posted is Some && requested == Some((posted->0).0)) ==> *final(img) == *old(img),
{
    if let Some((id, buf)) = posted {
        if requested == Some(id) {
            *img = Some(buf);
        }
    }
}

} // verus!
