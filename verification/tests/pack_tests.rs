use wall::pack::{pack_raster, unpack_raster};
use wall::raster::{resize_nearest, Raster};
use wall::visual::{ByteOrder, ScreenVisual};

fn visual24_lsb(width: u32, height: u32) -> ScreenVisual {
    ScreenVisual {
        width,
        height,
        depth: 24,
        byte_order: ByteOrder::LsbFirst,
        red_mask: 0xFF0000,
        green_mask: 0xFF00,
        blue_mask: 0xFF,
    }
}

fn visual32_lsb(width: u32, height: u32) -> ScreenVisual {
    ScreenVisual {
        depth: 32,
        ..visual24_lsb(width, height)
    }
}

#[test]
fn depth24_lsb_packs_bgr_with_zero_padding() {
    let ra = Raster { width: 1, height: 1, data: vec![10, 20, 30, 200] };
    let v = visual24_lsb(1, 1);
    let out = pack_raster(&ra, &v);
    // Blue at byte 0, green at 1, red at 2; alpha ignored at depth 24.
    assert_eq!(out, vec![30, 20, 10, 0]);
}

#[test]
fn depth32_lsb_packs_bgra() {
    let ra = Raster { width: 1, height: 1, data: vec![10, 20, 30, 200] };
    let v = visual32_lsb(1, 1);
    let out = pack_raster(&ra, &v);
    assert_eq!(out, vec![30, 20, 10, 200]);
}

#[test]
fn msb_order_mirrors_the_word() {
    let ra = Raster { width: 1, height: 1, data: vec![10, 20, 30, 200] };
    let v = ScreenVisual { byte_order: ByteOrder::MsbFirst, ..visual32_lsb(1, 1) };
    let out = pack_raster(&ra, &v);
    assert_eq!(out, vec![200, 10, 20, 30]);
}

#[test]
fn unusual_masks_place_the_channels() {
    let ra = Raster { width: 1, height: 1, data: vec![10, 20, 30, 200] };
    let v = ScreenVisual {
        red_mask: 0xFF,
        green_mask: 0xFF00,
        blue_mask: 0xFF0000,
        ..visual24_lsb(1, 1)
    };
    let out = pack_raster(&ra, &v);
    assert_eq!(out, vec![10, 20, 30, 0]);
}

#[test]
fn unpack_inverts_pack_at_depth32() {
    let ra = Raster {
        width: 2,
        height: 1,
        data: vec![1, 2, 3, 4, 250, 240, 230, 220],
    };
    let v = visual32_lsb(2, 1);
    let packed = pack_raster(&ra, &v);
    let back = unpack_raster(&packed, &v);
    assert_eq!(back.width, 2);
    assert_eq!(back.height, 1);
    assert_eq!(back.data, ra.data);
}

#[test]
fn unpack_synthesizes_opacity_at_depth24() {
    let ra = Raster {
        width: 2,
        height: 1,
        data: vec![1, 2, 3, 4, 250, 240, 230, 220],
    };
    let v = visual24_lsb(2, 1);
    let packed = pack_raster(&ra, &v);
    let back = unpack_raster(&packed, &v);
    assert_eq!(back.data, vec![1, 2, 3, 255, 250, 240, 230, 255]);
}

#[test]
fn resize_stretches_a_pixel_everywhere() {
    let ra = Raster { width: 1, height: 1, data: vec![9, 8, 7, 6] };
    let out = resize_nearest(&ra, 3, 2);
    assert_eq!(out.width, 3);
    assert_eq!(out.height, 2);
    assert_eq!(out.data.len(), 3 * 2 * 4);
    for px in out.data.chunks(4) {
        assert_eq!(px, &[9u8, 8, 7, 6][..]);
    }
}

#[test]
fn resize_picks_nearest_sources() {
    // Two source pixels widen to four: each source covers two outputs.
    let ra = Raster {
        width: 2,
        height: 1,
        data: vec![1, 1, 1, 1, 9, 9, 9, 9],
    };
    let out = resize_nearest(&ra, 4, 1);
    assert_eq!(
        out.data,
        vec![1, 1, 1, 1, 1, 1, 1, 1, 9, 9, 9, 9, 9, 9, 9, 9]
    );
}

#[test]
fn resize_downscale_keeps_corners_regular() {
    // Four source pixels shrink to one: nearest sampling keeps the top-left.
    let ra = Raster {
        width: 2,
        height: 2,
        data: vec![
            11, 11, 11, 11, 22, 22, 22, 22, //
            33, 33, 33, 33, 44, 44, 44, 44,
        ],
    };
    let out = resize_nearest(&ra, 1, 1);
    assert_eq!(out.data, vec![11, 11, 11, 11]);
}
