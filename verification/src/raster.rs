//! The in-memory RGBA raster every decode produces and every encode consumes.

use vstd::prelude::*;

verus! {

/// An image held as rows of RGBA8 samples. The buffer always holds exactly
/// `width * height` pixels of four bytes each, row-major; no partial rows.
#[derive(Debug)]
pub struct Raster {
    pub width: u32,
    pub height: u32,
    pub data: Vec<u8>,
}

impl Raster {
    /// The shape invariant: positive dimensions and a buffer whose length
    /// matches them exactly.
    pub open spec fn wf(self) -> bool {
        &&& self.width > 0
        &&& self.height > 0
        &&& self.data@.len() == self.width * self.height * 4
    }

    /// The sample of channel `c` (0 red, 1 green, 2 blue, 3 alpha) of the
    /// pixel at column `x`, row `y`.
    pub open spec fn sample(self, x: int, y: int, c: int) -> u8 {
        self.data@[(y * self.width + x) * 4 + c]
    }
}

/// The source coordinate a nearest-neighbour resize reads for output
/// coordinate `x` when `out_dim` pixels must cover `in_dim`.
pub open spec fn spec_src(x: int, out_dim: int, in_dim: int) -> int {
    x * in_dim / out_dim
}

/// The sample buffer of `idata` (an `iw` by `ih` raster) stretched to fill
/// `w` by `h` exactly, each output pixel copied from its nearest source
/// pixel.
pub open spec fn spec_resize(iw: int, ih: int, idata: Seq<u8>, w: int, h: int) -> Seq<u8> {
    Seq::new(
        (w * h * 4) as nat,
        |k: int|
            {
                let j = k / 4;
                let c = k % 4;
                let y = j / w;
                let x = j % w;
                idata[(spec_src(y, h, ih) * iw + spec_src(x, w, iw)) * 4 + c]
            },
    )
}

/// Stretches a raster to the given dimensions by nearest-neighbour
/// sampling: wallpapers always fill the screen exactly, never tiled or
/// letterboxed.
pub fn resize_nearest(ra: &Raster, w: u32, h: u32) -> (out: Raster)
    requires
        ra.wf(),
        w > 0,
        h > 0,
        w * h * 4 <= usize::MAX,
    ensures
        out.wf(),
        out.width == w,
        out.height == h,
        out.data@ == spec_resize(ra.width as int, ra.height as int, ra.data@, w as int, h as int),
{
    let iw: u64 = ra.width as u64;
    let ih: u64 = ra.height as u64;
    let n: usize = ra.data.len();
    proof {
        assert((w * h) as int <= (w * h * 4) as int) by (nonlinear_arith)
            requires
                w >= 0 && h >= 0,
        ;
    }
    let total: usize = (w as usize) * (h as usize);
    let mut data: Vec<u8> = Vec::new();
    let mut j: usize = 0;
    while j < total
        invariant
            ra.wf(),
            w > 0,
            h > 0,
            iw == ra.width,
            ih == ra.height,
            n == ra.data@.len(),
            n <= usize::MAX,
            total == w * h,
            w * h * 4 <= usize::MAX,
            j <= total,
            data@.len() == 4 * j,
            forall|k: int|
                0 <= k < 4 * j ==> data@[k] == spec_resize(
                    ra.width as int,
                    ra.height as int,
                    ra.data@,
                    w as int,
                    h as int,
                )[k],
        decreases total - j,
    {
        let y: usize = j / (w as usize);
        let x: usize = j % (w as usize);
        proof {
            assert(y < h && x < w) by (nonlinear_arith)
                requires
                    j < total && total == w * h && w > 0 && h > 0 && y == j as int / w as int && x
                        == j as int % w as int,
            ;
        }
        proof {
            assert(x * iw <= u64::MAX && y * ih <= u64::MAX) by (nonlinear_arith)
                requires
                    x <= u32::MAX && y <= u32::MAX && iw <= u32::MAX && ih <= u32::MAX,
            ;
        }
        let sx: u64 = (x as u64) * iw / (w as u64);
        let sy: u64 = (y as u64) * ih / (h as u64);
        proof {
            assert(sx < iw && sy < ih) by (nonlinear_arith)
                requires
                    x < w && y < h && iw > 0 && ih > 0 && w > 0 && h > 0 && x * iw <= u64::MAX && y
                        * ih <= u64::MAX && sx == x * iw / (w as int) && sy == y * ih / (h as int),
            ;
            assert(sy * iw + sx < iw * ih) by (nonlinear_arith)
                requires
                    sy < ih && sx < iw && iw > 0,
            ;
            assert((sy * iw + sx) * 4 + 4 <= iw * ih * 4) by (nonlinear_arith)
                requires
                    sy * iw + sx < iw * ih,
            ;
            assert(iw * ih * 4 == n);
        }
        let base: usize = ((sy * iw + sx) * 4) as usize;
        let r0 = ra.data[base];
        let r1 = ra.data[base + 1];
        let r2 = ra.data[base + 2];
        let r3 = ra.data[base + 3];
        data.push(r0);
        data.push(r1);
        data.push(r2);
        data.push(r3);
        proof {
            assert forall|k: int| 4 * j <= k < 4 * (j + 1) implies data@[k] == spec_resize(
                ra.width as int,
                ra.height as int,
                ra.data@,
                w as int,
                h as int,
            )[k] by {
                assert(k / 4 == j && k % 4 == k - 4 * j) by (nonlinear_arith)
                    requires
                        4 * j <= k < 4 * (j + 1),
                ;
            }
        }
        j = j + 1;
    }
    proof {
        assert(data@ =~= spec_resize(
            ra.width as int,
            ra.height as int,
            ra.data@,
            w as int,
            h as int,
        ));
    }
    Raster { width: w, height: h, data }
}

/// Resizing to a raster's own dimensions changes nothing: every output
/// pixel reads its own source pixel.
pub proof fn lemma_resize_identity(ra: Raster)
    requires
        ra.wf(),
    ensures
        spec_resize(
            ra.width as int,
            ra.height as int,
            ra.data@,
            ra.width as int,
            ra.height as int,
        ) == ra.data@,
{
    let w = ra.width as int;
    let h = ra.height as int;
    let d = ra.data@;
    assert forall|k: int| 0 <= k < d.len() implies spec_resize(w, h, d, w, h)[k] == d[k] by {
        let j = k / 4;
        let c = k % 4;
        let y = j / w;
        let x = j % w;
        assert(y * h / h == y && x * w / w == x) by (nonlinear_arith)
            requires
                y >= 0 && x >= 0 && w > 0 && h > 0,
        ;
        assert((y * w + x) * 4 + c == k) by (nonlinear_arith)
            requires
                j == k / 4 && c == k % 4 && y == j / w && x == j % w && k >= 0 && w > 0,
        ;
    }
    assert(spec_resize(w, h, d, w, h) =~= d);
}

} // verus!
