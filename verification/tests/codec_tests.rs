use wall::codec::{decode, encode};
use wall::error::WallError;
use wall::format::Format;
use wall::raster::Raster;

fn sample_raster() -> Raster {
    // 2 x 2, distinct samples in every channel, full variety of alpha.
    let data: Vec<u8> = vec![
        255, 0, 0, 255, // red, opaque
        0, 255, 0, 128, // green, half
        0, 0, 255, 7, // blue, nearly clear
        10, 20, 30, 0, // dark, clear
    ];
    Raster { width: 2, height: 2, data }
}

fn opaque_raster() -> Raster {
    let data: Vec<u8> = vec![
        255, 0, 0, 255, 0, 255, 0, 255, //
        0, 0, 255, 255, 10, 20, 30, 255,
    ];
    Raster { width: 2, height: 2, data }
}

#[test]
fn png_round_trip_is_lossless() {
    let ra = sample_raster();
    let bytes = encode(&ra, Format::Png).unwrap();
    let back = decode(&bytes, Format::Png).unwrap();
    assert_eq!(back.width, 2);
    assert_eq!(back.height, 2);
    assert_eq!(back.data, ra.data);
}

#[test]
fn bmp_round_trip_is_lossless() {
    let ra = opaque_raster();
    let bytes = encode(&ra, Format::Bmp).unwrap();
    let back = decode(&bytes, Format::Bmp).unwrap();
    assert_eq!(back.width, 2);
    assert_eq!(back.height, 2);
    assert_eq!(back.data, ra.data);
}

#[test]
fn farbfeld_round_trip_is_lossless() {
    let ra = sample_raster();
    let bytes = encode(&ra, Format::Farbfeld).unwrap();
    let back = decode(&bytes, Format::Farbfeld).unwrap();
    assert_eq!(back.width, 2);
    assert_eq!(back.height, 2);
    assert_eq!(back.data, ra.data);
}

#[test]
fn farbfeld_bytes_are_magic_dimensions_and_widened_samples() {
    let ra = Raster {
        width: 1,
        height: 2,
        data: vec![1, 2, 3, 4, 5, 6, 7, 8],
    };
    let bytes = encode(&ra, Format::Farbfeld).unwrap();
    let mut want: Vec<u8> = b"farbfeld".to_vec();
    want.extend_from_slice(&[0, 0, 0, 1, 0, 0, 0, 2]);
    for s in 1u8..=8 {
        // 16-bit big-endian s * 257: both bytes are the sample itself.
        want.push(s);
        want.push(s);
    }
    assert_eq!(bytes, want);
}

#[test]
fn jpeg_round_trip_keeps_dimensions() {
    let ra = opaque_raster();
    let bytes = encode(&ra, Format::Jpeg).unwrap();
    let back = decode(&bytes, Format::Jpeg).unwrap();
    assert_eq!(back.width, 2);
    assert_eq!(back.height, 2);
}

#[test]
fn a_format_without_an_encoder_is_encode_failed() {
    let ra = opaque_raster();
    assert_eq!(encode(&ra, Format::Dds).unwrap_err(), WallError::EncodeFailed);
}

#[test]
fn decoding_garbage_is_corrupt_data() {
    let garbage: Vec<u8> = vec![1, 2, 3, 4, 5, 6, 7, 8];
    assert_eq!(decode(&garbage, Format::Png).unwrap_err(), WallError::CorruptData);
    assert_eq!(decode(&garbage, Format::Tga).unwrap_err(), WallError::CorruptData);
}

#[test]
fn decoding_nothing_is_corrupt_data() {
    let empty: Vec<u8> = Vec::new();
    assert_eq!(decode(&empty, Format::Png).unwrap_err(), WallError::CorruptData);
}

#[test]
fn encoded_bytes_differ_from_the_raster() {
    // The codec really writes a container: a PNG starts with its signature,
    // not with the raw samples.
    let ra = sample_raster();
    let bytes = encode(&ra, Format::Png).unwrap();
    assert_ne!(bytes, ra.data);
    assert_eq!(bytes[..8], [137u8, 80, 78, 71, 13, 10, 26, 10]);
}
