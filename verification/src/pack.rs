//! Packing RGBA rasters into a screen's pixel layout, and back.
//!
//! The server stores a pixel as a 32-bit word: one byte per channel, each
//! channel at the byte its visual mask selects, transmitted in the server's
//! byte order. A depth of 24 ignores alpha entirely — the spare byte is
//! padding and packs as zero — while depth 32 preserves it. Unpacking is the
//! exact inverse, with full opacity synthesized at depth 24.

use vstd::prelude::*;

use crate::raster::Raster;
use crate::visual::{mask_byte, ByteOrder, ScreenVisual};

verus! {

/// The byte stored at word position `pos` (counted from the least
/// significant byte) for an RGBA sample under visual `v`.
pub open spec fn spec_channel_at(v: ScreenVisual, pos: int, r: u8, g: u8, b: u8, a: u8) -> u8 {
    if pos == v.red_byte() {
        r
    } else if pos == v.green_byte() {
        g
    } else if pos == v.blue_byte() {
        b
    } else if v.depth == 32 {
        a
    } else {
        0
    }
}

/// Where word byte `pos` stands in the transmitted group of four: in place
/// for a least-significant-first server, mirrored otherwise. Its own
/// inverse.
pub open spec fn spec_wire_pos(v: ScreenVisual, pos: int) -> int {
    match v.byte_order {
        ByteOrder::LsbFirst => pos,
        ByteOrder::MsbFirst => 3 - pos,
    }
}

/// The whole packed buffer for RGBA samples `data`: four bytes per pixel,
/// each the channel its wire position calls for.
pub open spec fn spec_pack(v: ScreenVisual, data: Seq<u8>) -> Seq<u8> {
    Seq::new(
        data.len(),
        |k: int|
            {
                let j = k / 4;
                let q = k % 4;
                spec_channel_at(
                    v,
                    spec_wire_pos(v, q),
                    data[4 * j],
                    data[4 * j + 1],
                    data[4 * j + 2],
                    data[4 * j + 3],
                )
            },
    )
}

/// The word position holding RGBA channel `c` (0 red, 1 green, 2 blue,
/// 3 alpha or padding).
pub open spec fn spec_channel_pos(v: ScreenVisual, c: int) -> int {
    if c == 0 {
        v.red_byte()
    } else if c == 1 {
        v.green_byte()
    } else if c == 2 {
        v.blue_byte()
    } else {
        v.alpha_byte()
    }
}

/// The RGBA samples recovered from a packed buffer: each colour channel read
/// back from its wire position, alpha likewise at depth 32 and full opacity
/// at depth 24.
pub open spec fn spec_unpack(v: ScreenVisual, bytes: Seq<u8>) -> Seq<u8> {
    Seq::new(
        bytes.len(),
        |k: int|
            {
                let j = k / 4;
                let c = k % 4;
                if c == 3 && v.depth != 32 {
                    255u8
                } else {
                    bytes[4 * j + spec_wire_pos(v, spec_channel_pos(v, c))]
                }
            },
    )
}

/// Packs a raster's samples for upload to a pixmap of visual `v`.
pub fn pack_raster(ra: &Raster, v: &ScreenVisual) -> (out: Vec<u8>)
    requires
        ra.wf(),
        v.wf(),
    ensures
        out@ == spec_pack(*v, ra.data@),
{
    let len: usize = ra.data.len();
    let npix: usize = len / 4;
    proof {
        let m = (ra.width * ra.height) as int;
        assert((m * 4) % 4 == 0 && (m * 4) / 4 == m) by (nonlinear_arith);
    }
    let mut out: Vec<u8> = Vec::new();
    let mut i: usize = 0;
    while i < npix
        invariant
            ra.wf(),
            v.wf(),
            i <= npix,
            npix == ra.data@.len() / 4,
            ra.data@.len() == 4 * npix,
            ra.data@.len() <= usize::MAX,
            out@.len() == 4 * i,
            forall|k: int| 0 <= k < 4 * i ==> out@[k] == spec_pack(*v, ra.data@)[k],
        decreases npix - i,
    {
        let base: usize = 4 * i;
        let r = ra.data[base];
        let g = ra.data[base + 1];
        let b = ra.data[base + 2];
        let a = ra.data[base + 3];
        let w0 = channel_byte(v, 0, r, g, b, a);
        let w1 = channel_byte(v, 1, r, g, b, a);
        let w2 = channel_byte(v, 2, r, g, b, a);
        let w3 = channel_byte(v, 3, r, g, b, a);
        match v.byte_order {
            ByteOrder::LsbFirst => {
                out.push(w0);
                out.push(w1);
                out.push(w2);
                out.push(w3);
            },
            ByteOrder::MsbFirst => {
                out.push(w3);
                out.push(w2);
                out.push(w1);
                out.push(w0);
            },
        }
        proof {
            assert forall|k: int| 4 * i <= k < 4 * (i + 1) implies out@[k] == spec_pack(
                *v,
                ra.data@,
            )[k] by {
                assert(k / 4 == i && k % 4 == k - 4 * i) by (nonlinear_arith)
                    requires 4 * i <= k < 4 * (i + 1);
            }
        }
        i = i + 1;
    }
    proof {
        assert(out@ =~= spec_pack(*v, ra.data@));
    }
    out
}

/// The channel byte at word position `pos` for one RGBA sample.
fn channel_byte(v: &ScreenVisual, pos: usize, r: u8, g: u8, b: u8, a: u8) -> (res: u8)
    requires
        v.wf(),
        pos < 4,
    ensures
        res == spec_channel_at(*v, pos as int, r, g, b, a),
{
    if pos == mask_byte(v.red_mask) {
        r
    } else if pos == mask_byte(v.green_mask) {
        g
    } else if pos == mask_byte(v.blue_mask) {
        b
    } else if v.depth == 32 {
        a
    } else {
        0
    }
}

/// Recovers a raster from the packed pixel buffer of a pixmap of visual
/// `v` and the screen's dimensions. The buffer must hold exactly the
/// screen's pixels.
pub fn unpack_raster(bytes: &Vec<u8>, v: &ScreenVisual) -> (ra: Raster)
    requires
        v.wf(),
        bytes@.len() == v.width * v.height * 4,
    ensures
        ra.wf(),
        ra.width == v.width,
        ra.height == v.height,
        ra.data@ == spec_unpack(*v, bytes@),
{
    let len: usize = bytes.len();
    let npix: usize = len / 4;
    proof {
        let m = (v.width * v.height) as int;
        assert((m * 4) % 4 == 0 && (m * 4) / 4 == m) by (nonlinear_arith);
    }
    let mut data: Vec<u8> = Vec::new();
    let mut i: usize = 0;
    while i < npix
        invariant
            v.wf(),
            i <= npix,
            npix == bytes@.len() / 4,
            bytes@.len() == 4 * npix,
            bytes@.len() <= usize::MAX,
            data@.len() == 4 * i,
            forall|k: int| 0 <= k < 4 * i ==> data@[k] == spec_unpack(*v, bytes@)[k],
        decreases npix - i,
    {
        let base: usize = 4 * i;
        let red = wire_byte(bytes, base, v, mask_byte(v.red_mask));
        let green = wire_byte(bytes, base, v, mask_byte(v.green_mask));
        let blue = wire_byte(bytes, base, v, mask_byte(v.blue_mask));
        let apos: usize = 6 - mask_byte(v.red_mask) - mask_byte(v.green_mask) - mask_byte(
            v.blue_mask,
        );
        let alpha: u8 = if v.depth == 32 {
            wire_byte(bytes, base, v, apos)
        } else {
            255
        };
        data.push(red);
        data.push(green);
        data.push(blue);
        data.push(alpha);
        proof {
            assert forall|k: int| 4 * i <= k < 4 * (i + 1) implies data@[k] == spec_unpack(
                *v,
                bytes@,
            )[k] by {
                assert(k / 4 == i && k % 4 == k - 4 * i) by (nonlinear_arith)
                    requires 4 * i <= k < 4 * (i + 1);
            }
        }
        i = i + 1;
    }
    proof {
        assert(data@ =~= spec_unpack(*v, bytes@));
    }
    Raster { width: v.width, height: v.height, data }
}

/// Reads the byte of word position `pos` out of the transmitted group at
/// `base`.
fn wire_byte(bytes: &Vec<u8>, base: usize, v: &ScreenVisual, pos: usize) -> (res: u8)
    requires
        pos < 4,
        base + 4 <= bytes@.len(),
    ensures
        res == bytes@[base + spec_wire_pos(*v, pos as int)],
{
    let _n: usize = bytes.len();
    match v.byte_order {
        ByteOrder::LsbFirst => bytes[base + pos],
        ByteOrder::MsbFirst => bytes[base + (3 - pos)],
    }
}

/// Packing then unpacking restores every colour sample; alpha survives at
/// depth 32 and comes back as full opacity at depth 24. This is the inverse
/// channel-mask logic the `get` path relies on.
pub proof fn lemma_pack_unpack(v: ScreenVisual, data: Seq<u8>)
    requires
        v.wf(),
        data.len() % 4 == 0,
    ensures
        spec_unpack(v, spec_pack(v, data)).len() == data.len(),
        forall|k: int|
            0 <= k < data.len() && k % 4 != 3 ==> spec_unpack(v, spec_pack(v, data))[k] == data[k],
        forall|k: int|
            0 <= k < data.len() && k % 4 == 3 ==> spec_unpack(v, spec_pack(v, data))[k] == (
            if v.depth == 32 {
                data[k]
            } else {
                255u8
            }),
{
    let packed = spec_pack(v, data);
    assert forall|k: int| 0 <= k < data.len() implies spec_unpack(v, packed)[k] == (
    if k % 4 == 3 && v.depth != 32 {
        255u8
    } else {
        data[k]
    }) by {
        let j = k / 4;
        let c = k % 4;
        assert(k == 4 * j + c && 0 <= c < 4) by (nonlinear_arith)
            requires j == k / 4 && c == k % 4 && 0 <= k;
        if c == 3 && v.depth != 32 {
        } else {
            let p = spec_channel_pos(v, c);
            let wk = 4 * j + spec_wire_pos(v, p);
            assert(0 <= spec_wire_pos(v, p) < 4);
            assert(wk / 4 == j && wk % 4 == spec_wire_pos(v, p)) by (nonlinear_arith)
                requires 4 * j <= wk < 4 * (j + 1) && wk == 4 * j + spec_wire_pos(v, p);
            assert(packed[wk] == spec_channel_at(
                v,
                spec_wire_pos(v, spec_wire_pos(v, p)),
                data[4 * j],
                data[4 * j + 1],
                data[4 * j + 2],
                data[4 * j + 3],
            ));
            assert(spec_wire_pos(v, spec_wire_pos(v, p)) == p);
        }
    }
}

} // verus!
