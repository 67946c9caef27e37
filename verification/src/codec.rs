//! Decoding and encoding image containers.
//!
//! Most container formats are the `image` crate's work; the library calls
//! it behind trusted wrappers. What a decode or encode returns depends on
//! the bytes and the format alone, so each call's result carries an
//! uninterpreted name, and the contracts of the verified functions around
//! the calls are exact over those names. Farbfeld alone is simple enough to
//! state byte for byte, so its encoder is written and proved here.

use vstd::prelude::*;

use crate::error::WallError;
use crate::format::Format;
use crate::raster::Raster;

verus! {

/// Relies on the variant-for-variant correspondence between the library's
/// format enumeration and the `image` crate's.
#[verifier::external_body]
fn image_format_of(fmt: &Format) -> image::ImageFormat {
    match fmt {
        Format::Png => image::ImageFormat::Png,
        Format::Jpeg => image::ImageFormat::Jpeg,
        Format::Gif => image::ImageFormat::Gif,
        Format::Bmp => image::ImageFormat::Bmp,
        Format::Ico => image::ImageFormat::Ico,
        Format::Tiff => image::ImageFormat::Tiff,
        Format::WebP => image::ImageFormat::WebP,
        Format::Pnm => image::ImageFormat::Pnm,
        Format::Dds => image::ImageFormat::Dds,
        Format::Tga => image::ImageFormat::Tga,
        Format::Farbfeld => image::ImageFormat::Farbfeld,
    }
}

/// What decoding a byte stream as the given container format yields:
/// width, height and the RGBA8 samples, or nothing where the stream is no
/// valid container of that format. A function of the bytes and the format
/// alone.
pub uninterp spec fn spec_decoded(bytes: Seq<u8>, fmt: Format) -> Option<(nat, nat, Seq<u8>)>;

/// What encoding a raster in the given container format yields, or nothing
/// where the format has no encoder. A function of the raster and the format
/// alone.
pub uninterp spec fn spec_encoded(
    width: nat,
    height: nat,
    data: Seq<u8>,
    fmt: Format,
) -> Option<Seq<u8>>;

/// The sixteen bytes that open a farbfeld image: the magic, then width and
/// height as big-endian 32-bit integers.
pub open spec fn spec_farbfeld_header(w: nat, h: nat) -> Seq<u8> {
    seq![
        ('f' as u8),
        ('a' as u8),
        ('r' as u8),
        ('b' as u8),
        ('f' as u8),
        ('e' as u8),
        ('l' as u8),
        ('d' as u8),
        (w / 0x1000000 % 0x100) as u8,
        (w / 0x10000 % 0x100) as u8,
        (w / 0x100 % 0x100) as u8,
        (w % 0x100) as u8,
        (h / 0x1000000 % 0x100) as u8,
        (h / 0x10000 % 0x100) as u8,
        (h / 0x100 % 0x100) as u8,
        (h % 0x100) as u8,
    ]
}

/// A whole farbfeld image: the header, then every 8-bit RGBA sample widened
/// to 16 bits by the factor 257 — whose two big-endian bytes are each the
/// sample itself.
pub open spec fn spec_farbfeld_bytes(w: nat, h: nat, data: Seq<u8>) -> Seq<u8> {
    Seq::new(
        (16 + 2 * data.len()) as nat,
        |k: int|
            if k < 16 {
                spec_farbfeld_header(w, h)[k]
            } else {
                data[(k - 16) / 2]
            },
    )
}

/// What the encoder of format `fmt` yields for a raster: farbfeld through
/// the library's own verified encoder (or nothing where the image outgrows
/// the address space), every other format through the outside 8-bit one.
pub open spec fn spec_encode_result(width: nat, height: nat, data: Seq<u8>, fmt: Format) -> Option<
    Seq<u8>,
> {
    if fmt == Format::Farbfeld {
        if 16 + 2 * data.len() <= usize::MAX {
            Some(spec_farbfeld_bytes(width, height, data))
        } else {
            None
        }
    } else {
        spec_encoded(width, height, data, fmt)
    }
}

/// Relies on `image::load_from_memory_with_format`, which decodes a byte
/// stream as one declared format, and on `DynamicImage::to_rgba8`, which
/// yields a tightly packed buffer of exactly `width * height` RGBA8 samples;
/// formats without alpha get full-opacity alpha synthesized. Both are
/// functions of their arguments alone.
#[verifier::external_body]
fn decode_with_image(bytes: &[u8], fmt: &Format) -> (r: Result<Raster, image::ImageError>)
    ensures
        match r {
            Ok(ra) => spec_decoded(bytes@, *fmt) == Some(
                (ra.width as nat, ra.height as nat, ra.data@),
            ) && ra.data@.len() == ra.width * ra.height * 4,
            Err(_) => spec_decoded(bytes@, *fmt) is None,
        },
{
    let f = image_format_of(fmt);
    let img = image::load_from_memory_with_format(bytes, f)?.to_rgba8();
    let (width, height) = img.dimensions();
    Ok(Raster { width, height, data: img.into_raw() })
}

/// Relies on `RgbaImage::from_raw`, which accepts any buffer of exactly
/// `width * height` RGBA8 samples, and on `DynamicImage::write_to`, which
/// encodes it in the requested container format (JPEG at the encoder's fixed
/// default quality) or reports the formats it cannot write. A function of
/// its arguments alone.
#[verifier::external_body]
fn encode_with_image(r: &Raster, fmt: &Format) -> (res: Result<Vec<u8>, image::ImageError>)
    requires
        r.wf(),
    ensures
        match res {
            Ok(b) => spec_encoded(r.width as nat, r.height as nat, r.data@, *fmt) == Some(b@),
            Err(_) => spec_encoded(r.width as nat, r.height as nat, r.data@, *fmt) is None,
        },
{
    let buf = image::RgbaImage::from_raw(r.width, r.height, r.data.clone()).unwrap();
    let mut out = std::io::Cursor::new(Vec::new());
    image::DynamicImage::ImageRgba8(buf).write_to(&mut out, image_format_of(fmt))?;
    Ok(out.into_inner())
}

/// Writes a raster as a farbfeld image. The format is simple enough to
/// state outright, so this encoder is the library's own, proved against
/// `spec_farbfeld_bytes` byte for byte.
pub fn encode_farbfeld(r: &Raster) -> (out: Vec<u8>)
    requires
        r.wf(),
        16 + 2 * r.data@.len() <= usize::MAX,
    ensures
        out@ == spec_farbfeld_bytes(r.width as nat, r.height as nat, r.data@),
{
    let w = r.width;
    let h = r.height;
    let mut out: Vec<u8> = Vec::new();
    out.push('f' as u8);
    out.push('a' as u8);
    out.push('r' as u8);
    out.push('b' as u8);
    out.push('f' as u8);
    out.push('e' as u8);
    out.push('l' as u8);
    out.push('d' as u8);
    out.push((w / 0x1000000 % 0x100) as u8);
    out.push((w / 0x10000 % 0x100) as u8);
    out.push((w / 0x100 % 0x100) as u8);
    out.push((w % 0x100) as u8);
    out.push((h / 0x1000000 % 0x100) as u8);
    out.push((h / 0x10000 % 0x100) as u8);
    out.push((h / 0x100 % 0x100) as u8);
    out.push((h % 0x100) as u8);
    proof {
        assert(out@ =~= spec_farbfeld_header(w as nat, h as nat));
    }
    let len: usize = r.data.len();
    let mut i: usize = 0;
    while i < len
        invariant
            r.wf(),
            i <= len,
            len == r.data@.len(),
            16 + 2 * len <= usize::MAX,
            out@.len() == 16 + 2 * i,
            forall|k: int|
                0 <= k < 16 + 2 * i ==> out@[k] == spec_farbfeld_bytes(
                    r.width as nat,
                    r.height as nat,
                    r.data@,
                )[k],
        decreases len - i,
    {
        let s = r.data[i];
        out.push(s);
        out.push(s);
        proof {
            assert forall|k: int| 16 + 2 * i <= k < 16 + 2 * (i + 1) implies out@[k]
                == spec_farbfeld_bytes(r.width as nat, r.height as nat, r.data@)[k] by {
                assert((k - 16) / 2 == i) by (nonlinear_arith)
                    requires
                        2 * i <= k - 16 < 2 * (i + 1),
                ;
            }
        }
        i = i + 1;
    }
    proof {
        assert(out@ =~= spec_farbfeld_bytes(r.width as nat, r.height as nat, r.data@));
    }
    out
}

/// Decodes a source image's bytes as the resolved format. Fails with
/// `CorruptData` exactly where the bytes are no valid container of that
/// format — or where the container declares a degenerate image with no
/// pixels, which no well-formed raster can hold.
pub fn decode(bytes: &Vec<u8>, fmt: Format) -> (r: Result<Raster, WallError>)
    ensures
        match spec_decoded(bytes@, fmt) {
            Some(t) => (if t.0 > 0 && t.1 > 0 {
                r matches Ok(ra) && ra.wf() && ra.width as nat == t.0 && ra.height as nat == t.1
                    && ra.data@ == t.2
            } else {
                r == Err::<Raster, WallError>(WallError::CorruptData)
            }),
            None => r == Err::<Raster, WallError>(WallError::CorruptData),
        },
{
    match decode_with_image(bytes.as_slice(), &fmt) {
        Ok(ra) => if ra.width > 0 && ra.height > 0 {
            Ok(ra)
        } else {
            Err(WallError::CorruptData)
        },
        Err(_) => Err(WallError::CorruptData),
    }
}

/// Encodes a raster in the resolved format. Fails with `EncodeFailed`
/// exactly where the format's encoder cannot write the raster.
pub fn encode(raster: &Raster, fmt: Format) -> (r: Result<Vec<u8>, WallError>)
    requires
        raster.wf(),
    ensures
        match spec_encode_result(raster.width as nat, raster.height as nat, raster.data@, fmt) {
            Some(b) => r matches Ok(v) && v@ == b,
            None => r == Err::<Vec<u8>, WallError>(WallError::EncodeFailed),
        },
{
    if fmt == Format::Farbfeld {
        let len: usize = raster.data.len();
        proof {
            assert(len <= (usize::MAX - 16) / 2 <==> 16 + 2 * len <= usize::MAX)
                by (nonlinear_arith);
        }
        if len <= (usize::MAX - 16) / 2 {
            Ok(encode_farbfeld(raster))
        } else {
            Err(WallError::EncodeFailed)
        }
    } else {
        match encode_with_image(raster, &fmt) {
            Ok(v) => Ok(v),
            Err(_) => Err(WallError::EncodeFailed),
        }
    }
}

} // verus!
