use boss_fight::picture::{bordered_panel, dark_backdrop, health_bar, into_rgba_bytes, paint, solid_fill, Pattern};

fn texel(bytes: &[u8], w: u32, x: u32, y: u32) -> [u8; 4] {
    let k = ((y * w + x) * 4) as usize;
    [bytes[k], bytes[k + 1], bytes[k + 2], bytes[k + 3]]
}

#[test]
fn a_solid_fill_is_one_colour() {
    let (w, h, bytes) = into_rgba_bytes(solid_fill(3, 2, (255, 200, 60, 230)));
    assert_eq!((w, h), (3, 2));
    assert_eq!(bytes.len(), 24);
    for k in 0..6 {
        assert_eq!(&bytes[k * 4..k * 4 + 4], &[255, 200, 60, 230]);
    }
}

#[test]
fn the_dark_backdrop() {
    let (w, h, bytes) = into_rgba_bytes(dark_backdrop());
    assert_eq!((w, h), (4, 4));
    assert_eq!(bytes, [4u8, 4, 8, 255].repeat(16));
}

#[test]
fn a_panel_has_a_frame() {
    let (w, _, bytes) = into_rgba_bytes(bordered_panel(10, 8, 3, (16, 26, 48), 235, 205));
    assert_eq!(texel(&bytes, w, 0, 0), [16, 26, 48, 235]);
    assert_eq!(texel(&bytes, w, 2, 5), [16, 26, 48, 235]);
    assert_eq!(texel(&bytes, w, 7, 4), [16, 26, 48, 235]);
    assert_eq!(texel(&bytes, w, 3, 3), [16, 26, 48, 205]);
    assert_eq!(texel(&bytes, w, 6, 4), [16, 26, 48, 205]);
    assert_eq!(texel(&bytes, w, 6, 5), [16, 26, 48, 235]);
}

#[test]
fn the_health_bar_splits_at_the_fill() {
    let (w, h, bytes) = into_rgba_bytes(health_bar(6, 2, 4, (220, 40, 40, 255), (30, 30, 30, 200)));
    assert_eq!((w, h), (6, 2));
    assert_eq!(texel(&bytes, w, 3, 1), [220, 40, 40, 255]);
    assert_eq!(texel(&bytes, w, 4, 0), [30, 30, 30, 200]);
    let (_, _, empty) = into_rgba_bytes(health_bar(6, 1, 0, (1, 1, 1, 1), (2, 2, 2, 2)));
    assert_eq!(empty, [2u8, 2, 2, 2].repeat(6));
}

#[test]
fn an_empty_sprite_has_no_bytes() {
    let (w, h, bytes) = into_rgba_bytes(paint(0, 5, Pattern::Solid((1, 2, 3, 4))));
    assert_eq!((w, h), (0, 5));
    assert!(bytes.is_empty());
}
