//! The compute stages of a `set` and a `get` invocation.
//!
//! A `set` runs decode → resize → pack before anything touches the server;
//! a `get` runs unpack → encode after the pixel data has been downloaded.
//! Everything here is pure: the binary around the library reads the file,
//! queries the screen, uploads the buffer and performs the install plan.

use vstd::prelude::*;

use crate::codec::{decode, encode, spec_decoded, spec_encode_result};
use crate::error::WallError;
use crate::format::{resolve_get_format, resolve_set_format, spec_encodable, spec_resolve, Format};
use crate::pack::{pack_raster, spec_pack, spec_unpack, unpack_raster};
use crate::raster::{lemma_resize_identity, resize_nearest, spec_resize, Raster};
use crate::visual::ScreenVisual;

verus! {

/// Decodes the source image of a `set`: resolves the format from flag and
/// path, then decodes the file's bytes. Runs before any server connection,
/// so a bad file fails the invocation with a decode-stage error first.
pub fn decode_source(bytes: &Vec<u8>, flag: Option<Format>, path: &[u8]) -> (r: Result<
    Raster,
    WallError,
>)
    ensures
        match spec_resolve(flag, path@) {
            None => r == Err::<Raster, WallError>(WallError::UnknownFormat),
            Some(f) => match spec_decoded(bytes@, f) {
                Some(t) => (if t.0 > 0 && t.1 > 0 {
                    r matches Ok(ra) && ra.wf() && ra.width as nat == t.0 && ra.height as nat
                        == t.1 && ra.data@ == t.2
                } else {
                    r == Err::<Raster, WallError>(WallError::CorruptData)
                }),
                None => r == Err::<Raster, WallError>(WallError::CorruptData),
            },
        },
{
    match resolve_set_format(flag, path) {
        Ok(fmt) => decode(bytes, fmt),
        Err(e) => Err(e),
    }
}

/// Builds the byte buffer a `set` uploads into the server-side pixmap: the
/// raster stretched to the screen's dimensions, packed for its visual.
pub fn build_pixmap_data(ra: &Raster, v: &ScreenVisual) -> (out: Vec<u8>)
    requires
        ra.wf(),
        v.wf(),
        v.width * v.height * 4 <= usize::MAX,
    ensures
        out@ == spec_pack(
            *v,
            spec_resize(
                ra.width as int,
                ra.height as int,
                ra.data@,
                v.width as int,
                v.height as int,
            ),
        ),
        out@.len() == v.width * v.height * 4,
{
    if ra.width == v.width && ra.height == v.height {
        proof {
            lemma_resize_identity(*ra);
        }
        pack_raster(ra, v)
    } else {
        let resized = resize_nearest(ra, v.width, v.height);
        pack_raster(&resized, v)
    }
}

/// Turns the downloaded pixel buffer of a `get` back into an encoded image:
/// resolves the output format (the encodable subset only), unpacks the
/// buffer by the inverse channel-mask logic, and encodes.
pub fn recover_wallpaper(packed: &Vec<u8>, v: &ScreenVisual, flag: Option<Format>, path: &[u8])
    -> (r: Result<Vec<u8>, WallError>)
    requires
        v.wf(),
        packed@.len() == v.width * v.height * 4,
    ensures
        match spec_resolve(flag, path@) {
            None => r == Err::<Vec<u8>, WallError>(WallError::UnknownFormat),
            Some(f) => (if !spec_encodable(f) {
                r == Err::<Vec<u8>, WallError>(WallError::UnknownFormat)
            } else {
                match spec_encode_result(
                    v.width as nat,
                    v.height as nat,
                    spec_unpack(*v, packed@),
                    f,
                ) {
                    Some(b) => r matches Ok(out) && out@ == b,
                    None => r == Err::<Vec<u8>, WallError>(WallError::EncodeFailed),
                }
            }),
        },
{
    match resolve_get_format(flag, path) {
        Ok(fmt) => {
            let ra = unpack_raster(packed, v);
            encode(&ra, fmt)
        },
        Err(e) => Err(e),
    }
}

} // verus!
