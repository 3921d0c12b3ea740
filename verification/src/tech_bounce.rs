//! The bounce pad's animation: the GIF's frames composed on one canvas,
//! cropped to what any frame ever paints (with a small margin), and fitted
//! into the pad's footprint.

use vstd::prelude::*;
use crate::picture::{
    alpha_at, copy_of, crop, crop_rect, decode_gif, extent, frame_view, gif_decoded, grid, overlaid, overlay, resize_nearest,
    resized_nearest, size_of, solid_fill, texels, GifFrame, Picture, Texel,
};

verus! {

/// A GIF's frames are composed on a canvas of at least one texel each way.
pub open spec fn canvas_size(w: u32, h: u32) -> (u32, u32) {
    (if w == 0 { 1 } else { w }, if h == 0 { 1 } else { h })
}

/// A fully transparent canvas.
pub open spec fn clear_canvas(size: (u32, u32)) -> Map<(u32, u32), Texel> {
    Map::new(|p: (u32, u32)| grid(size.0, size.1).contains(p), |p: (u32, u32)| (0u8, 0u8, 0u8, 0u8))
}

/// The canvas once the first `n` frames have been laid over it in order.
pub open spec fn composed(fs: Seq<(u32, u32, Map<(u32, u32), Texel>, (u32, u32))>, size: (u32, u32), n: nat) -> Map<(u32, u32), Texel>
    decreases n,
{
    if n == 0 {
        clear_canvas(size)
    } else {
        let f = fs[n - 1];
        overlaid(composed(fs, size, (n - 1) as nat), size, f.2, f.3, f.0 as i64, f.1 as i64)
    }
}

/// Lay the frames of a GIF one over the other on a clear canvas, keeping the
/// canvas after each: frame `k` of the result is everything drawn by frames
/// `0` to `k`.
pub fn compose_frames(w: u32, h: u32, frames: &Vec<GifFrame>) -> (out: Vec<Picture>)
    requires
        canvas_size(w, h).0 as int * canvas_size(w, h).1 as int * 4 <= isize::MAX,
    ensures
        out@.len() == frames@.len(),
        forall|k: int| 0 <= k < out@.len() ==> {
            &&& extent(#[trigger] out@[k]) == canvas_size(w, h)
            &&& texels(out@[k]) == composed(frames@.map_values(|f: GifFrame| frame_view(f)), canvas_size(w, h), (k + 1) as nat)
        },
{
    let cw: u32 = if w == 0 { 1 } else { w };
    let ch: u32 = if h == 0 { 1 } else { h };
    let ghost size = (cw, ch);
    let ghost fs = frames@.map_values(|f: GifFrame| frame_view(f));
    let mut canvas = solid_fill(cw, ch, (0, 0, 0, 0));
    assert(texels(canvas) =~= clear_canvas(size));
    let mut out: Vec<Picture> = Vec::new();
    let mut k: usize = 0;
    while k < frames.len()
        invariant
            k <= frames@.len(),
            size == canvas_size(w, h),
            fs == frames@.map_values(|f: GifFrame| frame_view(f)),
            extent(canvas) == size,
            texels(canvas) == composed(fs, size, k as nat),
            out@.len() == k,
            forall|j: int| 0 <= j < k ==> {
                &&& extent(#[trigger] out@[j]) == size
                &&& texels(out@[j]) == composed(fs, size, (j + 1) as nat)
            },
        decreases frames@.len() - k,
    {
        let f = &frames[k];
        overlay(&mut canvas, &f.patch, f.left as i64, f.top as i64);
        assert(fs[k as int] == frame_view(frames@[k as int]));
        out.push(copy_of(&canvas));
        k = k + 1;
    }
    out
}

/// Texel `(x, y)` of frame `k` is painted (not fully transparent).
pub open spec fn painted_at(fs: Seq<Picture>, k: int, x: u32, y: u32) -> bool {
    &&& 0 <= k < fs.len()
    &&& x < extent(fs[k]).0
    &&& y < extent(fs[k]).1
    &&& texels(fs[k])[(x, y)].3 > 0
}

/// The painted texels seen before the scan reaches frame `k`, row `y`,
/// column `x`.
pub open spec fn seen(fs: Seq<Picture>, k: int, y: u32, x: u32, fk: int, fx: u32, fy: u32) -> bool {
    &&& painted_at(fs, fk, fx, fy)
    &&& (fk < k || (fk == k && (fy < y || (fy == y && fx < x))))
}

/// The extent of what the frames paint: whether anything is painted, and the
/// least and greatest painted column and row.
#[derive(Clone, Copy, PartialEq, Eq, Debug, Structural)]
pub struct Painted {
    pub found: bool,
    pub min_x: u32,
    pub min_y: u32,
    pub max_x: u32,
    pub max_y: u32,
}

/// What the scan has established once it reaches `(k, y, x)`, with the
/// witnesses of each bound.
pub open spec fn scan_ok(fs: Seq<Picture>, o: Painted, w: u32, h: u32, k: int, y: u32, x: u32,
    wf: (int, u32, u32), wx0: (int, u32, u32), wy0: (int, u32, u32), wx1: (int, u32, u32), wy1: (int, u32, u32)) -> bool {
    &&& forall|fk: int, fx: u32, fy: u32| #[trigger] seen(fs, k, y, x, fk, fx, fy) ==>
            o.found && o.min_x <= fx <= o.max_x && o.min_y <= fy <= o.max_y
    &&& o.found ==> seen(fs, k, y, x, wf.0, wf.1, wf.2)
    &&& !o.found ==> o == (Painted { found: false, min_x: w, min_y: h, max_x: 0, max_y: 0 })
    &&& o.min_x <= w && (o.min_x == w || (seen(fs, k, y, x, wx0.0, wx0.1, wx0.2) && wx0.1 == o.min_x))
    &&& o.min_y <= h && (o.min_y == h || (seen(fs, k, y, x, wy0.0, wy0.1, wy0.2) && wy0.2 == o.min_y))
    &&& (o.max_x == 0 || (seen(fs, k, y, x, wx1.0, wx1.1, wx1.2) && wx1.1 == o.max_x))
    &&& (o.max_y == 0 || (seen(fs, k, y, x, wy1.0, wy1.1, wy1.2) && wy1.2 == o.max_y))
}

/// Scan every texel of every frame for paint. `w` and `h` (the GIF's own
/// size) are where the least column and row start.
pub fn painted_bounds(frames: &Vec<Picture>, w: u32, h: u32) -> (o: Painted)
    ensures
        o.found == exists|k: int, x: u32, y: u32| painted_at(frames@, k, x, y),
        forall|k: int, x: u32, y: u32| #[trigger] painted_at(frames@, k, x, y) ==>
            o.min_x <= x <= o.max_x && o.min_y <= y <= o.max_y,
        !o.found ==> o == (Painted { found: false, min_x: w, min_y: h, max_x: 0, max_y: 0 }),
        o.min_x <= w && (o.min_x == w || exists|k: int, y: u32| painted_at(frames@, k, o.min_x, y)),
        o.min_y <= h && (o.min_y == h || exists|k: int, x: u32| painted_at(frames@, k, x, o.min_y)),
        o.max_x == 0 || exists|k: int, y: u32| painted_at(frames@, k, o.max_x, y),
        o.max_y == 0 || exists|k: int, x: u32| painted_at(frames@, k, x, o.max_y),
{
    let ghost fs = frames@;
    let mut o = Painted { found: false, min_x: w, min_y: h, max_x: 0, max_y: 0 };
    let ghost mut wf: (int, u32, u32) = (0, 0, 0);
    let ghost mut wx0: (int, u32, u32) = (0, 0, 0);
    let ghost mut wy0: (int, u32, u32) = (0, 0, 0);
    let ghost mut wx1: (int, u32, u32) = (0, 0, 0);
    let ghost mut wy1: (int, u32, u32) = (0, 0, 0);
    let mut k: usize = 0;
    while k < frames.len()
        invariant
            fs == frames@,
            k <= fs.len(),
            scan_ok(fs, o, w, h, k as int, 0, 0, wf, wx0, wy0, wx1, wy1),
        decreases fs.len() - k,
    {
        let (fw, fh) = size_of(&frames[k]);
        let mut y: u32 = 0;
        while y < fh
            invariant
                fs == frames@,
                k < fs.len(),
                (fw, fh) == extent(fs[k as int]),
                y <= fh,
                scan_ok(fs, o, w, h, k as int, y, 0, wf, wx0, wy0, wx1, wy1),
            decreases fh - y,
        {
            let mut x: u32 = 0;
            while x < fw
                invariant
                    fs == frames@,
                    k < fs.len(),
                    (fw, fh) == extent(fs[k as int]),
                    y < fh,
                    x <= fw,
                    scan_ok(fs, o, w, h, k as int, y, x, wf, wx0, wy0, wx1, wy1),
                decreases fw - x,
            {
                let a = alpha_at(&frames[k], x, y);
                let ghost p = (k as int, x, y);
                if a > 0 {
                    if !o.found {
                        o.found = true;
                        proof { wf = p; }
                    }
                    if x < o.min_x {
                        o.min_x = x;
                        proof { wx0 = p; }
                    }
                    if y < o.min_y {
                        o.min_y = y;
                        proof { wy0 = p; }
                    }
                    if x > o.max_x {
                        o.max_x = x;
                        proof { wx1 = p; }
                    }
                    if y > o.max_y {
                        o.max_y = y;
                        proof { wy1 = p; }
                    }
                }
                proof {
                    assert forall|fk: int, fx: u32, fy: u32| #[trigger] seen(fs, k as int, y, (x + 1) as u32, fk, fx, fy) implies
                        o.found && o.min_x <= fx <= o.max_x && o.min_y <= fy <= o.max_y by {
                        if !(fk == k && fy == y && fx == x) {
                            assert(seen(fs, k as int, y, x, fk, fx, fy));
                        }
                    }
                }
                x = x + 1;
            }
            proof {
                assert forall|fk: int, fx: u32, fy: u32| #[trigger] seen(fs, k as int, (y + 1) as u32, 0, fk, fx, fy) implies
                    o.found && o.min_x <= fx <= o.max_x && o.min_y <= fy <= o.max_y by {
                    assert(seen(fs, k as int, y, fw, fk, fx, fy));
                }
                assert forall|fk: int, fx: u32, fy: u32| #[trigger] seen(fs, k as int, y, fw, fk, fx, fy) implies
                    seen(fs, k as int, (y + 1) as u32, 0, fk, fx, fy) by {
                }
            }
            y = y + 1;
        }
        proof {
            assert forall|fk: int, fx: u32, fy: u32| #[trigger] seen(fs, (k + 1) as int, 0, 0, fk, fx, fy) implies
                o.found && o.min_x <= fx <= o.max_x && o.min_y <= fy <= o.max_y by {
                assert(seen(fs, k as int, fh, 0, fk, fx, fy));
            }
            assert forall|fk: int, fx: u32, fy: u32| #[trigger] seen(fs, k as int, fh, 0, fk, fx, fy) implies
                seen(fs, (k + 1) as int, 0, 0, fk, fx, fy) by {
            }
        }
        k = k + 1;
    }
    proof {
        assert forall|fk: int, fx: u32, fy: u32| #[trigger] painted_at(fs, fk, fx, fy) implies
            o.min_x <= fx <= o.max_x && o.min_y <= fy <= o.max_y by {
            assert(seen(fs, fs.len() as int, 0, 0, fk, fx, fy));
        }
        if o.found {
            assert(painted_at(fs, wf.0, wf.1, wf.2));
        }
        if exists|fk: int, fx: u32, fy: u32| painted_at(fs, fk, fx, fy) {
            let (fk, fx, fy) = choose|fk: int, fx: u32, fy: u32| painted_at(fs, fk, fx, fy);
            assert(seen(fs, fs.len() as int, 0, 0, fk, fx, fy));
        }
        if o.min_x != w {
            assert(painted_at(fs, wx0.0, o.min_x, wx0.2));
        }
        if o.min_y != h {
            assert(painted_at(fs, wy0.0, wy0.1, o.min_y));
        }
        if o.max_x != 0 {
            assert(painted_at(fs, wx1.0, o.max_x, wx1.2));
        }
        if o.max_y != 0 {
            assert(painted_at(fs, wy1.0, wy1.1, o.max_y));
        }
    }
    o
}

/// The part of the canvas the pad keeps.
#[derive(Clone, Copy, PartialEq, Eq, Debug, Structural)]
pub struct CropBox {
    pub x: u32,
    pub y: u32,
    pub w: u32,
    pub h: u32,
}

/// The texels between `lo` and `hi` kept around the paint.
pub const CROP_MARGIN: u32 = 2;

pub open spec fn sat_sub(a: u32, b: u32) -> u32 {
    if a >= b { (a - b) as u32 } else { 0 }
}

pub open spec fn sat_inc(a: u32) -> u32 {
    if a == u32::MAX { a } else { (a + 1) as u32 }
}

/// The crop around the paint: its bounds widened by the margin on each side
/// but kept inside the GIF; the whole canvas when nothing is painted.
pub open spec fn crop_for(o: Painted, w: u32, h: u32) -> CropBox {
    if o.found {
        let x = sat_sub(o.min_x, CROP_MARGIN);
        let y = sat_sub(o.min_y, CROP_MARGIN);
        let right = if o.max_x + CROP_MARGIN < sat_sub(w, 1) { (o.max_x + CROP_MARGIN) as u32 } else { sat_sub(w, 1) };
        let bottom = if o.max_y + CROP_MARGIN < sat_sub(h, 1) { (o.max_y + CROP_MARGIN) as u32 } else { sat_sub(h, 1) };
        CropBox { x, y, w: sat_inc(sat_sub(right, x)), h: sat_inc(sat_sub(bottom, y)) }
    } else {
        CropBox { x: 0, y: 0, w: canvas_size(w, h).0, h: canvas_size(w, h).1 }
    }
}

/// The crop never cuts into the paint and never leaves the GIF: every painted
/// column and row lies inside it, and it ends within the GIF's size.
pub proof fn law_crop_covers_paint(o: Painted, w: u32, h: u32)
    requires
        o.found,
        o.min_x <= o.max_x < w,
        o.min_y <= o.max_y < h,
    ensures
        crop_for(o, w, h).x <= o.min_x,
        o.max_x < crop_for(o, w, h).x + crop_for(o, w, h).w <= w,
        crop_for(o, w, h).y <= o.min_y,
        o.max_y < crop_for(o, w, h).y + crop_for(o, w, h).h <= h,
{
}

/// The crop for what the frames paint.
pub fn crop_bounds(o: Painted, w: u32, h: u32) -> (c: CropBox)
    requires
        o.max_x <= u32::MAX - CROP_MARGIN,
        o.max_y <= u32::MAX - CROP_MARGIN,
    ensures
        c == crop_for(o, w, h),
{
    if o.found {
        let x = o.min_x.saturating_sub(CROP_MARGIN);
        let y = o.min_y.saturating_sub(CROP_MARGIN);
        let rx = o.max_x + CROP_MARGIN;
        let ry = o.max_y + CROP_MARGIN;
        let lw = w.saturating_sub(1);
        let lh = h.saturating_sub(1);
        let right = if rx < lw { rx } else { lw };
        let bottom = if ry < lh { ry } else { lh };
        CropBox {
            x,
            y,
            w: right.saturating_sub(x).saturating_add(1),
            h: bottom.saturating_sub(y).saturating_add(1),
        }
    } else {
        CropBox { x: 0, y: 0, w: if w == 0 { 1 } else { w }, h: if h == 0 { 1 } else { h } }
    }
}

/// A GIF's texels inside the (clamped) crop, moved to the corner.
pub open spec fn cropped(t: Map<(u32, u32), Texel>, size: (u32, u32), c: CropBox) -> Map<(u32, u32), Texel> {
    let r = crop_rect(size, c.x, c.y, c.w, c.h);
    Map::new(|p: (u32, u32)| grid(r.2, r.3).contains(p), |p: (u32, u32)| t[((r.0 + p.0) as u32, (r.1 + p.1) as u32)])
}

/// Where the art sits in the pad: centred across, flush with the top.
pub open spec fn art_offset(out_w: u32, draw_w: u32) -> i64 {
    (sat_sub(out_w, draw_w) / 2) as i64
}

/// One frame of the pad: the cropped canvas scaled to `draw` and laid, centred
/// across and flush with the top, on a clear `out` sized sprite.
pub open spec fn pad_frame(frame: Picture, c: CropBox, draw: (u32, u32), out: (u32, u32)) -> Map<(u32, u32), Texel> {
    let r = crop_rect(extent(frame), c.x, c.y, c.w, c.h);
    overlaid(
        clear_canvas(out),
        out,
        resized_nearest(cropped(texels(frame), extent(frame), c), (r.2, r.3), draw.0, draw.1),
        draw,
        art_offset(out.0, draw.0),
        0,
    )
}

/// Fit each composed frame into the pad's footprint: crop it, scale it to
/// `draw_w` by `draw_h` and place it on a clear `out_w` by `out_h` sprite.
pub fn pad_frames(frames: &Vec<Picture>, c: CropBox, draw_w: u32, draw_h: u32, out_w: u32, out_h: u32) -> (out: Vec<Picture>)
    requires
        draw_w as int * draw_h as int * 4 <= isize::MAX,
        out_w as int * out_h as int * 4 <= isize::MAX,
    ensures
        out@.len() == frames@.len(),
        forall|k: int| 0 <= k < out@.len() ==> {
            &&& extent(#[trigger] out@[k]) == (out_w, out_h)
            &&& texels(out@[k]) == pad_frame(frames@[k], c, (draw_w, draw_h), (out_w, out_h))
        },
{
    let offset: i64 = (out_w.saturating_sub(draw_w) / 2) as i64;
    let mut out: Vec<Picture> = Vec::new();
    let mut k: usize = 0;
    while k < frames.len()
        invariant
            k <= frames@.len(),
            out@.len() == k,
            offset == art_offset(out_w, draw_w),
            draw_w as int * draw_h as int * 4 <= isize::MAX,
            out_w as int * out_h as int * 4 <= isize::MAX,
            forall|j: int| 0 <= j < k ==> {
                &&& extent(#[trigger] out@[j]) == (out_w, out_h)
                &&& texels(out@[j]) == pad_frame(frames@[j], c, (draw_w, draw_h), (out_w, out_h))
            },
        decreases frames@.len() - k,
    {
        let cut = crop(&frames[k], c.x, c.y, c.w, c.h);
        assert(texels(cut) =~= cropped(texels(frames@[k as int]), extent(frames@[k as int]), c));
        let scaled = resize_nearest(&cut, draw_w, draw_h);
        let mut framed = solid_fill(out_w, out_h, (0, 0, 0, 0));
        assert(texels(framed) =~= clear_canvas((out_w, out_h)));
        overlay(&mut framed, &scaled, offset, 0);
        out.push(framed);
        k = k + 1;
    }
    out
}

/// The pad's art before fitting: the GIF's size, its composed frames, and the
/// crop around their paint.
pub struct PadArt {
    pub gif_w: u32,
    pub gif_h: u32,
    pub frames: Vec<Picture>,
    pub crop: CropBox,
}

/// The GIF's frames are composed and cropped only when its canvas can be
/// allocated and its columns and rows counted with the margin.
pub open spec fn canvas_fits(w: u32, h: u32) -> bool {
    &&& canvas_size(w, h).0 as int * canvas_size(w, h).1 as int * 4 <= isize::MAX
    &&& canvas_size(w, h).0 <= u32::MAX - CROP_MARGIN
    &&& canvas_size(w, h).1 <= u32::MAX - CROP_MARGIN
}

/// Decode the pad's GIF and prepare its art. `None` when the decoder refuses
/// the bytes or the canvas does not fit; the caller then falls back to the
/// still image.
#[verifier::spinoff_prover]
#[verifier::rlimit(50)]
pub fn pad_art(bytes: &[u8]) -> (r: Option<PadArt>)
    ensures
        r is Some <==> (gif_decoded(bytes@) is Some && canvas_fits(gif_decoded(bytes@).unwrap().0, gif_decoded(bytes@).unwrap().1)),
        r matches Some(a) ==> {
            let d = gif_decoded(bytes@).unwrap();
            &&& a.gif_w == d.0
            &&& a.gif_h == d.1
            &&& a.frames@.len() == d.2.len()
            &&& (forall|k: int| 0 <= k < a.frames@.len() ==> {
                &&& extent(#[trigger] a.frames@[k]) == canvas_size(d.0, d.1)
                &&& texels(a.frames@[k]) == composed(d.2, canvas_size(d.0, d.1), (k + 1) as nat)
            })
            &&& (exists|o: Painted| {
                &&& a.crop == crop_for(o, d.0, d.1)
                &&& o.found == exists|k: int, x: u32, y: u32| painted_at(a.frames@, k, x, y)
                &&& forall|k: int, x: u32, y: u32| #[trigger] painted_at(a.frames@, k, x, y) ==>
                        o.min_x <= x <= o.max_x && o.min_y <= y <= o.max_y
                &&& !o.found ==> o == (Painted { found: false, min_x: d.0, min_y: d.1, max_x: 0, max_y: 0 })
                &&& (o.min_x == d.0 || exists|k: int, y: u32| painted_at(a.frames@, k, o.min_x, y))
                &&& (o.min_y == d.1 || exists|k: int, x: u32| painted_at(a.frames@, k, x, o.min_y))
                &&& (o.max_x == 0 || exists|k: int, y: u32| painted_at(a.frames@, k, o.max_x, y))
                &&& (o.max_y == 0 || exists|k: int, x: u32| painted_at(a.frames@, k, x, o.max_y))
            })
        },
{
    let decoded = decode_gif(bytes);
    let (w, h, patches) = match decoded {
        None => return None,
        Some(d) => d,
    };
    let cw: u32 = if w == 0 { 1 } else { w };
    let ch: u32 = if h == 0 { 1 } else { h };
    assert(cw as int * ch as int <= 0xFFFF_FFFF * 0xFFFF_FFFF) by (nonlinear_arith)
        requires
            cw <= 0xFFFF_FFFFu32,
            ch <= 0xFFFF_FFFFu32,
    ;
    let area: u128 = cw as u128 * ch as u128;
    let ghost d = gif_decoded(bytes@).unwrap();
    assert(d == (w, h, patches@.map_values(|f: GifFrame| frame_view(f))));
    if area * 4 > isize::MAX as u128 || cw > u32::MAX - CROP_MARGIN || ch > u32::MAX - CROP_MARGIN {
        assert(!canvas_fits(w, h));
        return None;
    }
    assert(canvas_fits(w, h));
    let frames = compose_frames(w, h, &patches);
    let o = painted_bounds(&frames, w, h);
    proof {
        if o.max_x != 0 {
            let (k, y) = choose|k: int, y: u32| painted_at(frames@, k, o.max_x, y);
        }
        if o.max_y != 0 {
            let (k, x) = choose|k: int, x: u32| painted_at(frames@, k, x, o.max_y);
        }
    }
    let crop = crop_bounds(o, w, h);
    let art = PadArt { gif_w: w, gif_h: h, frames, crop };
    assert(art.crop == crop_for(o, d.0, d.1));
    assert(art.frames@.len() == d.2.len());
    assert(forall|k: int| 0 <= k < art.frames@.len() ==> {
        &&& extent(#[trigger] art.frames@[k]) == canvas_size(d.0, d.1)
        &&& texels(art.frames@[k]) == composed(d.2, canvas_size(d.0, d.1), (k + 1) as nat)
    });
    assert(o.found == exists|k: int, x: u32, y: u32| painted_at(art.frames@, k, x, y));
    assert(forall|k: int, x: u32, y: u32| #[trigger] painted_at(art.frames@, k, x, y) ==>
        o.min_x <= x <= o.max_x && o.min_y <= y <= o.max_y);
    assert(exists|p: Painted| {
        &&& art.crop == crop_for(p, d.0, d.1)
        &&& p.found == exists|k: int, x: u32, y: u32| painted_at(art.frames@, k, x, y)
        &&& forall|k: int, x: u32, y: u32| #[trigger] painted_at(art.frames@, k, x, y) ==>
                p.min_x <= x <= p.max_x && p.min_y <= y <= p.max_y
        &&& !p.found ==> p == (Painted { found: false, min_x: d.0, min_y: d.1, max_x: 0, max_y: 0 })
        &&& (p.min_x == d.0 || exists|k: int, y: u32| painted_at(art.frames@, k, p.min_x, y))
        &&& (p.min_y == d.1 || exists|k: int, x: u32| painted_at(art.frames@, k, x, p.min_y))
        &&& (p.max_x == 0 || exists|k: int, y: u32| painted_at(art.frames@, k, p.max_x, y))
        &&& (p.max_y == 0 || exists|k: int, x: u32| painted_at(art.frames@, k, x, p.max_y))
    }) by {
        assert(crop_for(o, d.0, d.1) == art.crop);
    }
    Some(art)
}

/// What the bounce pad wears: its animation, or the still picture when there
/// is none to show.
pub enum PadSprite {
    Animated(Vec<Picture>),
    Still,
}

/// The bounce pad's sprite from its art (`None` where the GIF could not be
/// used), fitted into an `out_w` by `out_h` pad with the art drawn at
/// `draw_w` by `draw_h`: the fitted frames, one per composed frame, or the
/// still picture when the GIF gave no art or no frame.
pub fn pad_sprite(art: Option<PadArt>, draw_w: u32, draw_h: u32, out_w: u32, out_h: u32) -> (s: PadSprite)
    requires
        draw_w as int * draw_h as int * 4 <= isize::MAX,
        out_w as int * out_h as int * 4 <= isize::MAX,
    ensures
        s is Still <==> (art is None || art.unwrap().frames@.len() == 0),
        s matches PadSprite::Animated(v) ==> {
            let a = art.unwrap();
            &&& v@.len() == a.frames@.len()
            &&& forall|k: int| 0 <= k < v@.len() ==> {
                &&& extent(#[trigger] v@[k]) == (out_w, out_h)
                &&& texels(v@[k]) == pad_frame(a.frames@[k], a.crop, (draw_w, draw_h), (out_w, out_h))
            }
        },
{
    match art {
        None => PadSprite::Still,
        Some(a) => {
            if a.frames.len() == 0 {
                return PadSprite::Still;
            }
            PadSprite::Animated(pad_frames(&a.frames, a.crop, draw_w, draw_h, out_w, out_h))
        },
    }
}

} // verus!
