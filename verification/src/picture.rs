//! Procedural sprites drawn texel by texel into `image` buffers: solid fills,
//! bordered panels and the dark backdrop.

use vstd::prelude::*;

verus! {

/// An RGBA image buffer of the `image` crate, held whole: its texels are
/// reached only through the functions below.
#[verifier::external_body]
pub struct Picture {
    buf: image::RgbaImage,
}

/// An 8-bit RGBA texel: red, green, blue, alpha.
pub type Texel = (u8, u8, u8, u8);

/// The texels of an RGBA buffer, keyed by `(x, y)`.
pub uninterp spec fn texels(img: Picture) -> Map<(u32, u32), Texel>;

/// The width and height an RGBA buffer was made with.
pub uninterp spec fn extent(img: Picture) -> (u32, u32);

/// The coordinates inside a `w` by `h` buffer.
pub open spec fn grid(w: u32, h: u32) -> Set<(u32, u32)> {
    Set::new(|p: (u32, u32)| p.0 < w && p.1 < h)
}

/// A buffer of `w` by `h` texels whose every texel is `t`.
pub open spec fn uniform(img: Picture, w: u32, h: u32, t: Texel) -> bool {
    &&& extent(img) == (w, h)
    &&& texels(img).dom() == grid(w, h)
    &&& forall|x: u32, y: u32| x < w && y < h ==> #[trigger] texels(img)[(x, y)] == t
}

/// `image::RgbaImage::new`: a `w` by `h` buffer of transparent black. It
/// panics when `w * h * 4` bytes cannot be a vector, which `requires` rules
/// out.
#[verifier::external_body]
fn blank(w: u32, h: u32) -> (img: Picture)
    requires
        w as int * h as int * 4 <= isize::MAX,
    ensures
        uniform(img, w, h, (0, 0, 0, 0)),
{
    Picture { buf: image::RgbaImage::new(w, h) }
}

/// `ImageBuffer::put_pixel`: overwrites the texel at `(x, y)`. It panics
/// outside the buffer, which `requires` rules out.
#[verifier::external_body]
fn plot(img: &mut Picture, x: u32, y: u32, t: Texel)
    requires
        x < extent(*old(img)).0,
        y < extent(*old(img)).1,
    ensures
        extent(*final(img)) == extent(*old(img)),
        texels(*final(img)) == texels(*old(img)).insert((x, y), t),
{
    img.buf.put_pixel(x, y, image::Rgba([t.0, t.1, t.2, t.3]));
}

/// One frame of a GIF as decoded: a patch and its place on the canvas.
pub struct GifFrame {
    pub left: u32,
    pub top: u32,
    pub patch: Picture,
}

/// A frame by plain values: its place, its texels and its size.
pub open spec fn frame_view(f: GifFrame) -> (u32, u32, Map<(u32, u32), Texel>, (u32, u32)) {
    (f.left, f.top, texels(f.patch), extent(f.patch))
}

/// What the `image` crate's GIF decoder makes of some bytes: `None` where it
/// refuses them, else the canvas width and height and the frames in order.
pub uninterp spec fn gif_decoded(bytes: Seq<u8>) -> Option<(u32, u32, Seq<(u32, u32, Map<(u32, u32), Texel>, (u32, u32))>)>;

/// `GifDecoder::new` on the bytes, its `dimensions`, and its frames through
/// `into_frames().collect_frames()`; either failing gives `None`.
#[verifier::external_body]
pub(crate) fn decode_gif(bytes: &[u8]) -> (r: Option<(u32, u32, Vec<GifFrame>)>)
    ensures
        match r {
            None => gif_decoded(bytes@) is None,
            Some(d) => gif_decoded(bytes@) == Some((d.0, d.1, d.2@.map_values(|f: GifFrame| frame_view(f)))),
        },
{
    let decoder = image::codecs::gif::GifDecoder::new(std::io::Cursor::new(bytes)).ok()?;
    let (w, h) = image::ImageDecoder::dimensions(&decoder);
    let frames = image::AnimationDecoder::into_frames(decoder).collect_frames().ok()?;
    let frames = frames.into_iter().map(|f| GifFrame { left: f.left(), top: f.top(), patch: Picture { buf: f.into_buffer() } });
    Some((w, h, frames.collect()))
}

/// The frames, canvas-sized and in order, that the `image` crate's GIF
/// decoder yields for some bytes before the first frame it fails on (none
/// where it refuses the bytes outright).
pub uninterp spec fn gif_frames_ok(bytes: Seq<u8>) -> Seq<(Map<(u32, u32), Texel>, (u32, u32))>;

/// `GifDecoder::new` on the bytes, then `into_frames`, taking each frame as
/// its canvas-sized buffer (`Frame::into_buffer`) up to the first frame that
/// fails; a decoder that cannot be made gives no frames. Stopping at the
/// first failure matters: on truncated data the frame iterator may keep
/// reporting the same error without ever ending.
#[verifier::external_body]
pub(crate) fn decode_frames_lenient(bytes: &[u8]) -> (r: Vec<Picture>)
    ensures
        r@.map_values(|p: Picture| (texels(p), extent(p))) == gif_frames_ok(bytes@),
{
    let Ok(decoder) = image::codecs::gif::GifDecoder::new(std::io::Cursor::new(bytes)) else {
        return Vec::new();
    };
    let frames = image::AnimationDecoder::into_frames(decoder).map_while(|f| f.ok());
    frames.map(|f| Picture { buf: f.into_buffer() }).collect()
}

/// The asteroid animation's frames from its GIF: the frames the decoder
/// yields before any failure, in order, or `None` when there are none (the
/// asteroid then has no animation).
pub fn asteroid_frames(bytes: &[u8]) -> (r: Option<Vec<Picture>>)
    ensures
        r is None <==> gif_frames_ok(bytes@).len() == 0,
        r matches Some(v) ==> v@.map_values(|p: Picture| (texels(p), extent(p))) == gif_frames_ok(bytes@),
{
    let frames = decode_frames_lenient(bytes);
    if frames.len() == 0 {
        return None;
    }
    Some(frames)
}

/// The texels of `bottom` after `top` is blended over it with its corner at
/// `(x, y)`, as `image::imageops::overlay` blends.
pub uninterp spec fn overlaid(bottom: Map<(u32, u32), Texel>, bottom_size: (u32, u32), top: Map<(u32, u32), Texel>, top_size: (u32, u32), x: i64, y: i64) -> Map<(u32, u32), Texel>;

/// `image::imageops::overlay`: blend `top` over `bottom` with its corner at
/// `(x, y)`; what falls outside `bottom` is dropped, its size is kept.
#[verifier::external_body]
pub(crate) fn overlay(bottom: &mut Picture, top: &Picture, x: i64, y: i64)
    ensures
        extent(*final(bottom)) == extent(*old(bottom)),
        texels(*final(bottom)) == overlaid(texels(*old(bottom)), extent(*old(bottom)), texels(*top), extent(*top), x, y),
{
    image::imageops::overlay(&mut bottom.buf, &top.buf, x, y);
}

/// `Clone` of the buffer: the same texels and size.
#[verifier::external_body]
pub(crate) fn copy_of(p: &Picture) -> (c: Picture)
    ensures
        texels(c) == texels(*p),
        extent(c) == extent(*p),
{
    Picture { buf: p.buf.clone() }
}

/// `ImageBuffer::get_pixel`, its alpha channel. It panics outside the buffer,
/// which `requires` rules out.
#[verifier::external_body]
pub(crate) fn alpha_at(p: &Picture, x: u32, y: u32) -> (a: u8)
    requires
        x < extent(*p).0,
        y < extent(*p).1,
    ensures
        a == texels(*p)[(x, y)].3,
{
    p.buf.get_pixel(x, y).0[3]
}

/// The rectangle `crop_imm` keeps: the corner clamped into the image, the size
/// clamped to what is left of it.
pub open spec fn crop_rect(size: (u32, u32), x: u32, y: u32, w: u32, h: u32) -> (u32, u32, u32, u32) {
    let cx = if x < size.0 { x } else { size.0 };
    let cy = if y < size.1 { y } else { size.1 };
    let cw = if w < size.0 - cx { w } else { (size.0 - cx) as u32 };
    let ch = if h < size.1 - cy { h } else { (size.1 - cy) as u32 };
    (cx, cy, cw, ch)
}

/// `image::imageops::crop_imm(..).to_image()`: a copy of the clamped
/// rectangle, texel `(i, j)` taken from `(x + i, y + j)`.
#[verifier::external_body]
pub(crate) fn crop(p: &Picture, x: u32, y: u32, w: u32, h: u32) -> (c: Picture)
    ensures
        extent(c) == (crop_rect(extent(*p), x, y, w, h).2, crop_rect(extent(*p), x, y, w, h).3),
        texels(c).dom() == grid(extent(c).0, extent(c).1),
        forall|i: u32, j: u32| i < extent(c).0 && j < extent(c).1 ==>
            #[trigger] texels(c)[(i, j)] == texels(*p)[(
                (crop_rect(extent(*p), x, y, w, h).0 + i) as u32,
                (crop_rect(extent(*p), x, y, w, h).1 + j) as u32,
            )],
{
    Picture { buf: image::imageops::crop_imm(&p.buf, x, y, w, h).to_image() }
}

/// What `image::imageops::resize` with the nearest-texel filter makes of an
/// image at a new size.
pub uninterp spec fn resized_nearest(t: Map<(u32, u32), Texel>, size: (u32, u32), w: u32, h: u32) -> Map<(u32, u32), Texel>;

/// `image::imageops::resize` with `FilterType::Nearest`, to `w` by `h`.
#[verifier::external_body]
pub(crate) fn resize_nearest(p: &Picture, w: u32, h: u32) -> (r: Picture)
    requires
        w as int * h as int * 4 <= isize::MAX,
    ensures
        extent(r) == (w, h),
        texels(r) == resized_nearest(texels(*p), extent(*p), w, h),
{
    Picture { buf: image::imageops::resize(&p.buf, w, h, image::imageops::FilterType::Nearest) }
}

/// `ImageBuffer::into_raw`: the buffer's bytes, four per texel (red, green,
/// blue, alpha), row after row from the top, each row from the left.
#[verifier::external_body]
fn raw_bytes(img: Picture) -> (b: Vec<u8>)
    ensures
        b@ == raster(texels(img), extent(img).0, extent(img).1),
{
    img.buf.into_raw()
}

/// `ImageBuffer::dimensions`: the width and height.
#[verifier::external_body]
pub(crate) fn size_of(img: &Picture) -> (d: (u32, u32))
    ensures
        d == extent(*img),
{
    img.buf.dimensions()
}

/// Channel `c` (0 red, 1 green, 2 blue, 3 alpha) of a texel.
pub open spec fn channel(t: Texel, c: int) -> u8 {
    if c == 0 { t.0 } else if c == 1 { t.1 } else if c == 2 { t.2 } else { t.3 }
}

/// The bytes of a `w` by `h` image, row-major, four per texel.
pub open spec fn raster(t: Map<(u32, u32), Texel>, w: u32, h: u32) -> Seq<u8> {
    Seq::new((w * h * 4) as nat, |k: int| channel(t[(((k / 4) % w as int) as u32, ((k / 4) / w as int) as u32)], k % 4))
}

/// The width, height and bytes of a picture, for handing to the renderer.
pub fn into_rgba_bytes(img: Picture) -> (r: (u32, u32, Vec<u8>))
    ensures
        r.0 == extent(img).0,
        r.1 == extent(img).1,
        r.2@ == raster(texels(img), r.0, r.1),
{
    let (w, h) = size_of(&img);
    let bytes = raw_bytes(img);
    (w, h, bytes)
}

/// How a procedural sprite colours each texel.
#[derive(Clone, Copy, Debug)]
pub enum Pattern {
    /// One colour everywhere.
    Solid(Texel),
    /// A frame `border` texels wide in `edge`, the inside in `fill`.
    Framed { border: u32, edge: Texel, fill: Texel },
    /// Columns left of `at` in `left`, the rest in `right`.
    Split { at: u32, left: Texel, right: Texel },
}

/// The colour of texel `(x, y)` of a `w` by `h` sprite.
pub open spec fn pattern_texel(p: Pattern, w: u32, h: u32, x: u32, y: u32) -> Texel {
    match p {
        Pattern::Solid(t) => t,
        Pattern::Framed { border, edge, fill } =>
            if x < border || x >= w - border || y < border || y >= h - border { edge } else { fill },
        Pattern::Split { at, left, right } => if x < at { left } else { right },
    }
}

/// A frame is narrower than the sprite.
pub open spec fn pattern_fits(p: Pattern, w: u32, h: u32) -> bool {
    match p {
        Pattern::Framed { border, .. } => border <= w && border <= h,
        _ => true,
    }
}

fn texel_at(p: Pattern, w: u32, h: u32, x: u32, y: u32) -> (t: Texel)
    requires
        pattern_fits(p, w, h),
    ensures
        t == pattern_texel(p, w, h, x, y),
{
    match p {
        Pattern::Solid(t) => t,
        Pattern::Framed { border, edge, fill } => {
            if x < border || x >= w - border || y < border || y >= h - border { edge } else { fill }
        },
        Pattern::Split { at, left, right } => if x < at { left } else { right },
    }
}

/// A `w` by `h` sprite painted texel by texel, row after row.
pub open spec fn painted(img: Picture, p: Pattern, w: u32, h: u32) -> bool {
    &&& extent(img) == (w, h)
    &&& texels(img).dom() == grid(w, h)
    &&& forall|x: u32, y: u32| x < w && y < h ==> #[trigger] texels(img)[(x, y)] == pattern_texel(p, w, h, x, y)
}

/// Paint a `w` by `h` sprite.
pub fn paint(w: u32, h: u32, p: Pattern) -> (img: Picture)
    requires
        w as int * h as int * 4 <= isize::MAX,
        pattern_fits(p, w, h),
    ensures
        painted(img, p, w, h),
{
    let mut img = blank(w, h);
    let mut y: u32 = 0;
    while y < h
        invariant
            y <= h,
            pattern_fits(p, w, h),
            extent(img) == (w, h),
            texels(img).dom() == grid(w, h),
            forall|px: u32, py: u32| px < w && py < y ==> #[trigger] texels(img)[(px, py)] == pattern_texel(p, w, h, px, py),
        decreases h - y,
    {
        let mut x: u32 = 0;
        while x < w
            invariant
                x <= w,
                y < h,
                pattern_fits(p, w, h),
                extent(img) == (w, h),
                texels(img).dom() == grid(w, h),
                forall|px: u32, py: u32| px < w && py < y ==> #[trigger] texels(img)[(px, py)] == pattern_texel(p, w, h, px, py),
                forall|px: u32| px < x ==> #[trigger] texels(img)[(px, y)] == pattern_texel(p, w, h, px, y),
            decreases w - x,
        {
            let t = texel_at(p, w, h, x, y);
            plot(&mut img, x, y, t);
            assert(texels(img).dom() =~= grid(w, h));
            x = x + 1;
        }
        y = y + 1;
    }
    img
}

/// A `w` by `h` sprite of one colour: the combo flash, the full health bar.
pub fn solid_fill(w: u32, h: u32, t: Texel) -> (img: Picture)
    requires
        w as int * h as int * 4 <= isize::MAX,
    ensures
        uniform(img, w, h, t),
{
    let img = paint(w, h, Pattern::Solid(t));
    assert forall|x: u32, y: u32| x < w && y < h implies #[trigger] texels(img)[(x, y)] == t by {
        assert(pattern_texel(Pattern::Solid(t), w, h, x, y) == t);
    }
    img
}

/// A HUD panel: a frame `border` texels wide at alpha `edge_alpha` around an
/// inside at alpha `fill_alpha`, both in one colour.
pub fn bordered_panel(w: u32, h: u32, border: u32, rgb: (u8, u8, u8), edge_alpha: u8, fill_alpha: u8) -> (img: Picture)
    requires
        w as int * h as int * 4 <= isize::MAX,
        border <= w,
        border <= h,
    ensures
        painted(img, Pattern::Framed {
            border,
            edge: (rgb.0, rgb.1, rgb.2, edge_alpha),
            fill: (rgb.0, rgb.1, rgb.2, fill_alpha),
        }, w, h),
{
    paint(w, h, Pattern::Framed {
        border,
        edge: (rgb.0, rgb.1, rgb.2, edge_alpha),
        fill: (rgb.0, rgb.1, rgb.2, fill_alpha),
    })
}

/// The boss's health bar: the first `filled` columns in the fill colour, the
/// rest in the backing colour.
pub fn health_bar(w: u32, h: u32, filled: u32, fill: Texel, back: Texel) -> (img: Picture)
    requires
        w as int * h as int * 4 <= isize::MAX,
    ensures
        painted(img, Pattern::Split { at: filled, left: fill, right: back }, w, h),
{
    paint(w, h, Pattern::Split { at: filled, left: fill, right: back })
}

/// The backdrop of dark mode: four by four texels of near-black.
pub fn dark_backdrop() -> (img: Picture)
    ensures
        uniform(img, 4, 4, (4, 4, 8, 255)),
{
    solid_fill(4, 4, (4, 4, 8, 255))
}

} // verus!
