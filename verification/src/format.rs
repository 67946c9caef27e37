//! Image formats and how a `set` or `get` invocation resolves one.
//!
//! A format comes either from the explicit `--format` flag or, failing that,
//! from the path's extension; the flag always wins. The `set` path accepts
//! every format of the enumeration, the `get` path the smaller encodable
//! subset (no WebP, no DDS).

use vstd::prelude::*;

use crate::error::WallError;
use vstd::string::StringSliceAdditionalSpecFns;

verus! {

/// The closed enumeration of image container formats the tool knows.
#[derive(Clone, Copy, Debug, PartialEq, Eq, Structural)]
pub enum Format {
    Png,
    Jpeg,
    Gif,
    Bmp,
    Ico,
    Tiff,
    WebP,
    Pnm,
    Dds,
    Tga,
    Farbfeld,
}

/// Formats the `get` path can encode to: everything but WebP and DDS.
pub open spec fn spec_encodable(f: Format) -> bool {
    f != Format::WebP && f != Format::Dds
}

/// Whether `get` may encode to `f`.
pub fn encodable(f: Format) -> (r: bool)
    ensures
        r == spec_encodable(f),
{
    !(f == Format::WebP || f == Format::Dds)
}

/// The format named by a `--format` flag value, if any: one name for each
/// member of the enumeration. An explicit flag always wins over the path's
/// extension, for every settable format — `webp` and `dds` included, though
/// the `get` path later refuses those two.
pub open spec fn spec_str_to_format(s: Seq<u8>) -> Option<Format> {
    if s == seq![('p' as u8), ('n' as u8), ('g' as u8)] {
        Some(Format::Png)
    } else if s == seq![('j' as u8), ('p' as u8), ('e' as u8), ('g' as u8)] {
        Some(Format::Jpeg)
    } else if s == seq![('g' as u8), ('i' as u8), ('f' as u8)] {
        Some(Format::Gif)
    } else if s == seq![('b' as u8), ('m' as u8), ('p' as u8)] {
        Some(Format::Bmp)
    } else if s == seq![('i' as u8), ('c' as u8), ('o' as u8)] {
        Some(Format::Ico)
    } else if s == seq![('t' as u8), ('i' as u8), ('f' as u8), ('f' as u8)] {
        Some(Format::Tiff)
    } else if s == seq![('w' as u8), ('e' as u8), ('b' as u8), ('p' as u8)] {
        Some(Format::WebP)
    } else if s == seq![('p' as u8), ('n' as u8), ('m' as u8)] {
        Some(Format::Pnm)
    } else if s == seq![('d' as u8), ('d' as u8), ('s' as u8)] {
        Some(Format::Dds)
    } else if s == seq![('t' as u8), ('g' as u8), ('a' as u8)] {
        Some(Format::Tga)
    } else if s == seq![('f' as u8), ('a' as u8), ('r' as u8), ('b' as u8), ('f' as u8), ('e' as u8), ('l' as u8), ('d' as u8)] {
        Some(Format::Farbfeld)
    } else {
        None
    }
}

/// Maps a `--format` flag value to a format.
pub fn str_to_format(s: &str) -> (r: Option<Format>)
    ensures
        r == spec_str_to_format(s.spec_bytes()),
{
    let b = s.as_bytes();
    let n = b.len();
    if n == 3 && b[0] == ('p' as u8) && b[1] == ('n' as u8) && b[2] == ('g' as u8) {
        proof { assert(b@ =~= seq![('p' as u8), ('n' as u8), ('g' as u8)]); }
        Some(Format::Png)
    } else if n == 4 && b[0] == ('j' as u8) && b[1] == ('p' as u8) && b[2] == ('e' as u8) && b[3] == ('g' as u8) {
        proof { assert(b@ =~= seq![('j' as u8), ('p' as u8), ('e' as u8), ('g' as u8)]); }
        Some(Format::Jpeg)
    } else if n == 3 && b[0] == ('g' as u8) && b[1] == ('i' as u8) && b[2] == ('f' as u8) {
        proof { assert(b@ =~= seq![('g' as u8), ('i' as u8), ('f' as u8)]); }
        Some(Format::Gif)
    } else if n == 3 && b[0] == ('b' as u8) && b[1] == ('m' as u8) && b[2] == ('p' as u8) {
        proof { assert(b@ =~= seq![('b' as u8), ('m' as u8), ('p' as u8)]); }
        Some(Format::Bmp)
    } else if n == 3 && b[0] == ('i' as u8) && b[1] == ('c' as u8) && b[2] == ('o' as u8) {
        proof { assert(b@ =~= seq![('i' as u8), ('c' as u8), ('o' as u8)]); }
        Some(Format::Ico)
    } else if n == 4 && b[0] == ('t' as u8) && b[1] == ('i' as u8) && b[2] == ('f' as u8) && b[3] == ('f' as u8) {
        proof { assert(b@ =~= seq![('t' as u8), ('i' as u8), ('f' as u8), ('f' as u8)]); }
        Some(Format::Tiff)
    } else if n == 4 && b[0] == ('w' as u8) && b[1] == ('e' as u8) && b[2] == ('b' as u8) && b[3] == ('p' as u8) {
        proof { assert(b@ =~= seq![('w' as u8), ('e' as u8), ('b' as u8), ('p' as u8)]); }
        Some(Format::WebP)
    } else if n == 3 && b[0] == ('p' as u8) && b[1] == ('n' as u8) && b[2] == ('m' as u8) {
        proof { assert(b@ =~= seq![('p' as u8), ('n' as u8), ('m' as u8)]); }
        Some(Format::Pnm)
    } else if n == 3 && b[0] == ('d' as u8) && b[1] == ('d' as u8) && b[2] == ('s' as u8) {
        proof { assert(b@ =~= seq![('d' as u8), ('d' as u8), ('s' as u8)]); }
        Some(Format::Dds)
    } else if n == 3 && b[0] == ('t' as u8) && b[1] == ('g' as u8) && b[2] == ('a' as u8) {
        proof { assert(b@ =~= seq![('t' as u8), ('g' as u8), ('a' as u8)]); }
        Some(Format::Tga)
    } else if n == 8 && b[0] == ('f' as u8) && b[1] == ('a' as u8) && b[2] == ('r' as u8) && b[3] == ('b' as u8) && b[4]
        == ('f' as u8) && b[5] == ('e' as u8) && b[6] == ('l' as u8) && b[7] == ('d' as u8) {
        proof { assert(b@ =~= seq![('f' as u8), ('a' as u8), ('r' as u8), ('b' as u8), ('f' as u8), ('e' as u8), ('l' as u8), ('d' as u8)]); }
        Some(Format::Farbfeld)
    } else {
        None
    }
}

/// The format inferred from a lower-cased path extension.
pub open spec fn spec_format_from_ext(s: Seq<u8>) -> Option<Format> {
    if s == seq![('p' as u8), ('n' as u8), ('g' as u8)] {
        Some(Format::Png)
    } else if s == seq![('j' as u8), ('p' as u8), ('g' as u8)] || s == seq![('j' as u8), ('p' as u8), ('e' as u8), ('g' as u8)] {
        Some(Format::Jpeg)
    } else if s == seq![('g' as u8), ('i' as u8), ('f' as u8)] {
        Some(Format::Gif)
    } else if s == seq![('b' as u8), ('m' as u8), ('p' as u8)] {
        Some(Format::Bmp)
    } else if s == seq![('i' as u8), ('c' as u8), ('o' as u8)] {
        Some(Format::Ico)
    } else if s == seq![('t' as u8), ('i' as u8), ('f' as u8)] || s == seq![('t' as u8), ('i' as u8), ('f' as u8), ('f' as u8)] {
        Some(Format::Tiff)
    } else if s == seq![('w' as u8), ('e' as u8), ('b' as u8), ('p' as u8)] {
        Some(Format::WebP)
    } else if s == seq![('p' as u8), ('b' as u8), ('m' as u8)] || s == seq![('p' as u8), ('a' as u8), ('m' as u8)] || s == seq![('p' as u8), ('p' as u8), ('m' as u8)] || s == seq![('p' as u8), ('g' as u8), ('m' as u8)] {
        Some(Format::Pnm)
    } else if s == seq![('d' as u8), ('d' as u8), ('s' as u8)] {
        Some(Format::Dds)
    } else if s == seq![('t' as u8), ('g' as u8), ('a' as u8)] {
        Some(Format::Tga)
    } else if s == seq![('f' as u8), ('f' as u8)] || s == seq![('f' as u8), ('a' as u8), ('r' as u8), ('b' as u8), ('f' as u8), ('e' as u8), ('l' as u8), ('d' as u8)] {
        Some(Format::Farbfeld)
    } else {
        None
    }
}

/// Maps a lower-cased extension to a format.
pub fn format_from_ext(e: &[u8]) -> (r: Option<Format>)
    ensures
        r == spec_format_from_ext(e@),
{
    let n = e.len();
    if n == 3 && e[0] == ('p' as u8) && e[1] == ('n' as u8) && e[2] == ('g' as u8) {
        proof { assert(e@ =~= seq![('p' as u8), ('n' as u8), ('g' as u8)]); }
        Some(Format::Png)
    } else if n == 3 && e[0] == ('j' as u8) && e[1] == ('p' as u8) && e[2] == ('g' as u8) {
        proof { assert(e@ =~= seq![('j' as u8), ('p' as u8), ('g' as u8)]); }
        Some(Format::Jpeg)
    } else if n == 4 && e[0] == ('j' as u8) && e[1] == ('p' as u8) && e[2] == ('e' as u8) && e[3] == ('g' as u8) {
        proof { assert(e@ =~= seq![('j' as u8), ('p' as u8), ('e' as u8), ('g' as u8)]); }
        Some(Format::Jpeg)
    } else if n == 3 && e[0] == ('g' as u8) && e[1] == ('i' as u8) && e[2] == ('f' as u8) {
        proof { assert(e@ =~= seq![('g' as u8), ('i' as u8), ('f' as u8)]); }
        Some(Format::Gif)
    } else if n == 3 && e[0] == ('b' as u8) && e[1] == ('m' as u8) && e[2] == ('p' as u8) {
        proof { assert(e@ =~= seq![('b' as u8), ('m' as u8), ('p' as u8)]); }
        Some(Format::Bmp)
    } else if n == 3 && e[0] == ('i' as u8) && e[1] == ('c' as u8) && e[2] == ('o' as u8) {
        proof { assert(e@ =~= seq![('i' as u8), ('c' as u8), ('o' as u8)]); }
        Some(Format::Ico)
    } else if n == 3 && e[0] == ('t' as u8) && e[1] == ('i' as u8) && e[2] == ('f' as u8) {
        proof { assert(e@ =~= seq![('t' as u8), ('i' as u8), ('f' as u8)]); }
        Some(Format::Tiff)
    } else if n == 4 && e[0] == ('t' as u8) && e[1] == ('i' as u8) && e[2] == ('f' as u8) && e[3] == ('f' as u8) {
        proof { assert(e@ =~= seq![('t' as u8), ('i' as u8), ('f' as u8), ('f' as u8)]); }
        Some(Format::Tiff)
    } else if n == 4 && e[0] == ('w' as u8) && e[1] == ('e' as u8) && e[2] == ('b' as u8) && e[3] == ('p' as u8) {
        proof { assert(e@ =~= seq![('w' as u8), ('e' as u8), ('b' as u8), ('p' as u8)]); }
        Some(Format::WebP)
    } else if n == 3 && e[0] == ('p' as u8) && e[1] == ('b' as u8) && e[2] == ('m' as u8) {
        proof { assert(e@ =~= seq![('p' as u8), ('b' as u8), ('m' as u8)]); }
        Some(Format::Pnm)
    } else if n == 3 && e[0] == ('p' as u8) && e[1] == ('a' as u8) && e[2] == ('m' as u8) {
        proof { assert(e@ =~= seq![('p' as u8), ('a' as u8), ('m' as u8)]); }
        Some(Format::Pnm)
    } else if n == 3 && e[0] == ('p' as u8) && e[1] == ('p' as u8) && e[2] == ('m' as u8) {
        proof { assert(e@ =~= seq![('p' as u8), ('p' as u8), ('m' as u8)]); }
        Some(Format::Pnm)
    } else if n == 3 && e[0] == ('p' as u8) && e[1] == ('g' as u8) && e[2] == ('m' as u8) {
        proof { assert(e@ =~= seq![('p' as u8), ('g' as u8), ('m' as u8)]); }
        Some(Format::Pnm)
    } else if n == 3 && e[0] == ('d' as u8) && e[1] == ('d' as u8) && e[2] == ('s' as u8) {
        proof { assert(e@ =~= seq![('d' as u8), ('d' as u8), ('s' as u8)]); }
        Some(Format::Dds)
    } else if n == 3 && e[0] == ('t' as u8) && e[1] == ('g' as u8) && e[2] == ('a' as u8) {
        proof { assert(e@ =~= seq![('t' as u8), ('g' as u8), ('a' as u8)]); }
        Some(Format::Tga)
    } else if n == 2 && e[0] == ('f' as u8) && e[1] == ('f' as u8) {
        proof { assert(e@ =~= seq![('f' as u8), ('f' as u8)]); }
        Some(Format::Farbfeld)
    } else if n == 8 && e[0] == ('f' as u8) && e[1] == ('a' as u8) && e[2] == ('r' as u8) && e[3] == ('b' as u8) && e[4]
        == ('f' as u8) && e[5] == ('e' as u8) && e[6] == ('l' as u8) && e[7] == ('d' as u8) {
        proof { assert(e@ =~= seq![('f' as u8), ('a' as u8), ('r' as u8), ('b' as u8), ('f' as u8), ('e' as u8), ('l' as u8), ('d' as u8)]); }
        Some(Format::Farbfeld)
    } else {
        None
    }
}

/// Index of the dot that starts `p`'s extension, scanning down from `i`:
/// the last `.` of the file name, provided it neither starts the name nor
/// stands in a directory component.
pub open spec fn spec_ext_scan(p: Seq<u8>, i: int) -> Option<int>
    decreases i + 1,
{
    if i < 0 || i >= p.len() {
        None
    } else if p[i] == ('/' as u8) {
        None
    } else if p[i] == ('.' as u8) {
        if i > 0 && p[i - 1] != ('/' as u8) {
            Some(i)
        } else {
            None
        }
    } else {
        spec_ext_scan(p, i - 1)
    }
}

/// The path's extension: the bytes after the last dot of its file name.
pub open spec fn spec_path_ext(p: Seq<u8>) -> Option<Seq<u8>> {
    match spec_ext_scan(p, p.len() - 1) {
        Some(i) => Some(p.subrange(i + 1, p.len() as int)),
        None => None,
    }
}

/// ASCII lower-casing of one byte.
pub open spec fn spec_lower_byte(b: u8) -> u8 {
    if ('A' as u8) <= b && b <= ('Z' as u8) {
        (b + 32) as u8
    } else {
        b
    }
}

/// ASCII lower-casing of a byte string.
pub open spec fn spec_lower(s: Seq<u8>) -> Seq<u8> {
    s.map(|i: int, b: u8| spec_lower_byte(b))
}

/// The path's extension, lower-cased, or `None` where the file name has none.
pub fn path_ext_lower(path: &[u8]) -> (r: Option<Vec<u8>>)
    ensures
        match spec_path_ext(path@) {
            Some(e) => r matches Some(v) && v@ == spec_lower(e),
            None => r is None,
        },
{
    let n = path.len();
    let mut i: usize = n;
    loop
        invariant
            i <= n,
            n == path@.len(),
            spec_ext_scan(path@, n - 1) == spec_ext_scan(path@, i - 1),
        decreases i,
    {
        if i == 0 {
            return None;
        }
        let b = path[i - 1];
        if b == ('/' as u8) {
            return None;
        }
        if b == ('.' as u8) {
            if i - 1 > 0 && path[i - 2] != ('/' as u8) {
                return Some(copy_lower(path, i));
            } else {
                return None;
            }
        }
        i = i - 1;
    }
}

/// Copies `src[from..]`, lower-casing each byte.
fn copy_lower(src: &[u8], from: usize) -> (v: Vec<u8>)
    requires
        from <= src@.len(),
    ensures
        v@ == spec_lower(src@.subrange(from as int, src@.len() as int)),
{
    let n = src.len();
    let mut v: Vec<u8> = Vec::new();
    let mut j: usize = from;
    while j < n
        invariant
            from <= j <= n,
            n == src@.len(),
            v@ == spec_lower(src@.subrange(from as int, j as int)),
        decreases n - j,
    {
        let b = src[j];
        let lb: u8 = if ('A' as u8) <= b && b <= ('Z' as u8) { b + 32 } else { b };
        v.push(lb);
        proof {
            assert(v@ =~= spec_lower(src@.subrange(from as int, j + 1 as int)));
        }
        j = j + 1;
    }
    proof {
        assert(src@.subrange(from as int, j as int) =~= src@.subrange(from as int, n as int));
    }
    v
}

/// What a `set` or `get` invocation resolves its format to: the explicit
/// flag where one is given, else the format inferred from the path's
/// lower-cased extension.
pub open spec fn spec_resolve(flag: Option<Format>, path: Seq<u8>) -> Option<Format> {
    match flag {
        Some(f) => Some(f),
        None => match spec_path_ext(path) {
            Some(e) => spec_format_from_ext(spec_lower(e)),
            None => None,
        },
    }
}

/// Resolves the format for an invocation from the flag and the path.
pub fn resolve_format(flag: Option<Format>, path: &[u8]) -> (r: Option<Format>)
    ensures
        r == spec_resolve(flag, path@),
{
    match flag {
        Some(f) => Some(f),
        None => match path_ext_lower(path) {
            Some(e) => format_from_ext(e.as_slice()),
            None => None,
        },
    }
}

/// The format a `set` decodes with: any resolvable format will do; an
/// unresolvable one is the `UnknownFormat` error.
pub fn resolve_set_format(flag: Option<Format>, path: &[u8]) -> (r: Result<
    Format,
    WallError,
>)
    ensures
        match spec_resolve(flag, path@) {
            Some(f) => r == Ok::<Format, WallError>(f),
            None => r == Err::<Format, WallError>(WallError::UnknownFormat),
        },
{
    match resolve_format(flag, path) {
        Some(f) => Ok(f),
        None => Err(WallError::UnknownFormat),
    }
}

/// The format a `get` encodes with: as `resolve_set_format`, but a format
/// outside the encodable subset (WebP, DDS) is also `UnknownFormat`.
pub fn resolve_get_format(flag: Option<Format>, path: &[u8]) -> (r: Result<
    Format,
    WallError,
>)
    ensures
        match spec_resolve(flag, path@) {
            Some(f) => if spec_encodable(f) {
                r == Ok::<Format, WallError>(f)
            } else {
                r == Err::<Format, WallError>(WallError::UnknownFormat)
            },
            None => r == Err::<Format, WallError>(WallError::UnknownFormat),
        },
{
    match resolve_format(flag, path) {
        Some(f) => if encodable(f) {
            Ok(f)
        } else {
            Err(WallError::UnknownFormat)
        },
        None => Err(WallError::UnknownFormat),
    }
}

/// The explicit flag always wins over the path's extension: with a flag
/// present, the path plays no part in resolution.
pub proof fn lemma_flag_wins(flag: Format, path: Seq<u8>)
    ensures
        spec_resolve(Some(flag), path) == Some(flag),
{
}

} // verus!
