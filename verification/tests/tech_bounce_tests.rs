use boss_fight::picture::{asteroid_frames, into_rgba_bytes};
use boss_fight::tech_bounce::{crop_bounds, pad_art, pad_frames, pad_sprite, CropBox, PadSprite, Painted};

fn dot_frame(x: u32, y: u32) -> image::Frame {
    let mut img = image::RgbaImage::new(20, 20);
    img.put_pixel(x, y, image::Rgba([200, 40, 40, 255]));
    image::Frame::from_parts(img, 0, 0, image::Delay::from_numer_denom_ms(100, 1))
}

fn two_dot_gif() -> Vec<u8> {
    let mut bytes: Vec<u8> = Vec::new();
    {
        let mut enc = image::codecs::gif::GifEncoder::new(&mut bytes);
        enc.encode_frame(dot_frame(8, 9)).unwrap();
        enc.encode_frame(dot_frame(12, 5)).unwrap();
    }
    bytes
}

fn alpha(bytes: &[u8], w: u32, x: u32, y: u32) -> u8 {
    bytes[((y * w + x) * 4 + 3) as usize]
}

#[test]
fn the_crop_hugs_the_paint_with_a_margin() {
    let art = pad_art(&two_dot_gif()).expect("the GIF decodes");
    assert_eq!((art.gif_w, art.gif_h), (20, 20));
    assert_eq!(art.frames.len(), 2);
    assert_eq!(art.crop, CropBox { x: 6, y: 3, w: 9, h: 9 });
}

#[test]
fn frames_are_composed_over_one_another() {
    let art = pad_art(&two_dot_gif()).unwrap();
    let mut frames = art.frames;
    let second = frames.pop().unwrap();
    let (w, h, bytes) = into_rgba_bytes(second);
    assert_eq!((w, h), (20, 20));
    assert!(alpha(&bytes, w, 12, 5) > 0);
    assert!(alpha(&bytes, w, 8, 9) > 0, "the first frame's paint is kept");
    assert_eq!(alpha(&bytes, w, 0, 0), 0);
}

#[test]
fn the_pad_frames_are_centred_across_and_flush_with_the_top() {
    let art = pad_art(&two_dot_gif()).unwrap();
    let out = pad_frames(&art.frames, art.crop, 9, 9, 12, 9);
    assert_eq!(out.len(), 2);
    let mut out = out;
    let first = out.remove(0);
    let (w, h, bytes) = into_rgba_bytes(first);
    assert_eq!((w, h), (12, 9));
    assert!(alpha(&bytes, w, 8 - 6 + 1, 9 - 3) > 0);
    assert_eq!(alpha(&bytes, w, 0, 0), 0);
    assert_eq!(alpha(&bytes, w, 12 - 6 + 1, 5 - 3), 0, "the second dot is not in the first frame");
}

#[test]
fn bytes_that_are_not_a_gif_give_no_art() {
    assert!(pad_art(&[1, 2, 3, 4]).is_none());
    assert!(pad_art(&[]).is_none());
}

#[test]
fn nothing_painted_keeps_the_whole_canvas() {
    let none = Painted { found: false, min_x: 20, min_y: 10, max_x: 0, max_y: 0 };
    assert_eq!(crop_bounds(none, 20, 10), CropBox { x: 0, y: 0, w: 20, h: 10 });
    assert_eq!(crop_bounds(Painted { found: false, min_x: 0, min_y: 0, max_x: 0, max_y: 0 }, 0, 0), CropBox { x: 0, y: 0, w: 1, h: 1 });
}

#[test]
fn the_margin_stops_at_the_edges() {
    let edge = Painted { found: true, min_x: 1, min_y: 0, max_x: 19, max_y: 9 };
    assert_eq!(crop_bounds(edge, 20, 10), CropBox { x: 0, y: 0, w: 20, h: 10 });
}

#[test]
fn the_art_is_scaled_to_the_draw_size() {
    let art = pad_art(&two_dot_gif()).unwrap();
    let mut out = pad_frames(&art.frames, art.crop, 18, 18, 20, 18);
    let (w, h, bytes) = into_rgba_bytes(out.remove(0));
    assert_eq!((w, h), (20, 18));
    let painted = (0..w * h).filter(|k| bytes[(k * 4 + 3) as usize] > 0).count();
    assert!(painted >= 4, "one painted texel doubled both ways covers four");
    for y in 0..h {
        for x in 0..w {
            if alpha(&bytes, w, x, y) > 0 {
                assert!((1..19).contains(&x), "the art is centred across: one clear column each side");
            }
        }
    }
}

#[test]
fn the_asteroid_animation_keeps_every_decoded_frame() {
    let frames = asteroid_frames(&two_dot_gif()).expect("the GIF has frames");
    assert_eq!(frames.len(), 2);
    let mut frames = frames.into_iter();
    let (w, h, first) = into_rgba_bytes(frames.next().unwrap());
    assert_eq!((w, h), (20, 20));
    assert_eq!(alpha(&first, w, 8, 9), 255);
    assert_eq!(alpha(&first, w, 12, 5), 0);
    let (_, _, second) = into_rgba_bytes(frames.next().unwrap());
    assert_eq!(alpha(&second, w, 12, 5), 255);
}

#[test]
fn bytes_that_are_not_a_gif_give_no_asteroid_animation() {
    assert!(asteroid_frames(b"not a gif").is_none());
}

#[test]
fn a_usable_gif_gives_the_pad_its_animation() {
    let art = pad_art(&two_dot_gif());
    match pad_sprite(art, 8, 8, 10, 12) {
        PadSprite::Animated(frames) => {
            assert_eq!(frames.len(), 2);
            let (w, h, _) = into_rgba_bytes(frames.into_iter().next().unwrap());
            assert_eq!((w, h), (10, 12));
        }
        PadSprite::Still => panic!("the GIF has frames"),
    }
}

#[test]
fn an_unusable_gif_leaves_the_pad_still() {
    assert!(matches!(pad_sprite(pad_art(b"not a gif"), 8, 8, 10, 12), PadSprite::Still));
}

#[test]
fn a_gif_cut_off_in_its_first_image_gives_no_asteroid_animation() {
    let bytes = two_dot_gif();
    let cut = bytes.iter().position(|b| *b == 0x2C).expect("an image block") + 1;
    assert!(asteroid_frames(&bytes[..cut]).is_none());
}
