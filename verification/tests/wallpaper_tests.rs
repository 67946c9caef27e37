use wall::codec::{decode, encode};
use wall::error::WallError;
use wall::format::Format;
use wall::raster::Raster;
use wall::visual::{ByteOrder, ScreenVisual};
use wall::wallpaper::{build_pixmap_data, decode_source, recover_wallpaper};

fn screen_1080p() -> ScreenVisual {
    ScreenVisual {
        width: 1920,
        height: 1080,
        depth: 24,
        byte_order: ByteOrder::LsbFirst,
        red_mask: 0xFF0000,
        green_mask: 0xFF00,
        blue_mask: 0xFF,
    }
}

#[test]
fn set_then_get_round_trips_through_the_screen() {
    // A `set wallpaper.png` on a 1920 x 1080, 24-bit screen...
    let source = Raster {
        width: 4,
        height: 2,
        data: (0..32).map(|i| (i * 7) as u8).collect(),
    };
    let file_bytes = encode(&source, Format::Png).unwrap();
    let decoded = decode_source(&file_bytes, None, b"wallpaper.png").unwrap();
    assert_eq!(decoded.width, 4);
    assert_eq!(decoded.height, 2);

    let v = screen_1080p();
    let packed = build_pixmap_data(&decoded, &v);
    // ...yields a server pixmap buffer of exactly the screen's pixels, with
    // the alpha channel dropped at depth 24...
    assert_eq!(packed.len(), 1920 * 1080 * 4);
    assert_eq!(packed[3], 0);

    // ...and a later `get output.png` encodes a 1920 x 1080 image.
    let out_bytes = recover_wallpaper(&packed, &v, None, b"output.png").unwrap();
    let out = decode(&out_bytes, Format::Png).unwrap();
    assert_eq!(out.width, 1920);
    assert_eq!(out.height, 1080);
}

#[test]
fn the_flag_overrides_the_extension_end_to_end() {
    let source = Raster { width: 2, height: 2, data: vec![200; 16] };
    let jpeg_bytes = encode(&source, Format::Jpeg).unwrap();
    // The path says .png; the flag says JPEG; the flag wins, so the JPEG
    // stream decodes.
    let decoded = decode_source(&jpeg_bytes, Some(Format::Jpeg), b"wallpaper.png");
    assert!(decoded.is_ok());
    // Without the flag the PNG decoder rejects the same stream.
    let decoded = decode_source(&jpeg_bytes, None, b"wallpaper.png");
    assert_eq!(decoded.unwrap_err(), WallError::CorruptData);
}

#[test]
fn a_bad_source_fails_at_the_decode_stage() {
    // `set missing.tga`: the file's bytes never arrive, so decoding fails
    // before anything would touch a server.
    let no_bytes: Vec<u8> = Vec::new();
    let r = decode_source(&no_bytes, None, b"missing.tga");
    assert_eq!(r.unwrap_err(), WallError::CorruptData);
}

#[test]
fn an_unresolvable_path_fails_with_unknown_format() {
    let no_bytes: Vec<u8> = Vec::new();
    let r = decode_source(&no_bytes, None, b"mystery");
    assert_eq!(r.unwrap_err(), WallError::UnknownFormat);
}

#[test]
fn get_to_webp_is_refused() {
    let v = ScreenVisual { width: 1, height: 1, ..screen_1080p() };
    let packed = vec![1, 2, 3, 0];
    let r = recover_wallpaper(&packed, &v, None, b"out.webp");
    assert_eq!(r.unwrap_err(), WallError::UnknownFormat);
}

#[test]
fn get_recovers_the_packed_pixels() {
    let v = ScreenVisual { width: 2, height: 1, ..screen_1080p() };
    // Packed BGR0 for two pixels.
    let packed = vec![30, 20, 10, 0, 60, 50, 40, 0];
    let out_bytes = recover_wallpaper(&packed, &v, None, b"shot.bmp").unwrap();
    let out = decode(&out_bytes, Format::Bmp).unwrap();
    assert_eq!(out.width, 2);
    assert_eq!(out.height, 1);
    assert_eq!(out.data, vec![10, 20, 30, 255, 40, 50, 60, 255]);
}

#[test]
fn error_messages_name_the_condition() {
    assert_eq!(WallError::NoWallpaperSet.message(), "no wallpaper was set");
    assert_eq!(
        WallError::Connect.message(),
        "could not connect to the display server"
    );
}
