use wall::error::WallError;
use wall::format::{
    encodable, format_from_ext, resolve_format, resolve_get_format, resolve_set_format,
    str_to_format, Format,
};

#[test]
fn flag_names_map_to_their_formats() {
    assert_eq!(str_to_format("png"), Some(Format::Png));
    assert_eq!(str_to_format("jpeg"), Some(Format::Jpeg));
    assert_eq!(str_to_format("gif"), Some(Format::Gif));
    assert_eq!(str_to_format("bmp"), Some(Format::Bmp));
    assert_eq!(str_to_format("ico"), Some(Format::Ico));
    assert_eq!(str_to_format("tiff"), Some(Format::Tiff));
    assert_eq!(str_to_format("webp"), Some(Format::WebP));
    assert_eq!(str_to_format("pnm"), Some(Format::Pnm));
    assert_eq!(str_to_format("dds"), Some(Format::Dds));
    assert_eq!(str_to_format("tga"), Some(Format::Tga));
    assert_eq!(str_to_format("farbfeld"), Some(Format::Farbfeld));
}

#[test]
fn unknown_flag_names_are_rejected() {
    assert_eq!(str_to_format("jpg"), None);
    assert_eq!(str_to_format(""), None);
    assert_eq!(str_to_format("portable"), None);
    assert_eq!(str_to_format("farbfel"), None);
}

#[test]
fn a_webp_or_dds_flag_wins_on_the_set_path() {
    // The explicit flag beats a contradicting extension for every settable
    // format, the two unencodable ones included.
    assert_eq!(resolve_set_format(Some(Format::WebP), b"wallpaper.png"), Ok(Format::WebP));
    assert_eq!(resolve_set_format(Some(Format::Dds), b"wallpaper.png"), Ok(Format::Dds));
}

#[test]
fn extensions_resolve_without_a_flag() {
    assert_eq!(resolve_format(None, b"wallpaper.png"), Some(Format::Png));
    assert_eq!(resolve_format(None, b"photo.jpg"), Some(Format::Jpeg));
    assert_eq!(resolve_format(None, b"photo.jpeg"), Some(Format::Jpeg));
    assert_eq!(resolve_format(None, b"scan.tif"), Some(Format::Tiff));
    assert_eq!(resolve_format(None, b"anim.webp"), Some(Format::WebP));
    assert_eq!(resolve_format(None, b"tex.dds"), Some(Format::Dds));
    assert_eq!(resolve_format(None, b"shot.ff"), Some(Format::Farbfeld));
    assert_eq!(resolve_format(None, b"shot.farbfeld"), Some(Format::Farbfeld));
    assert_eq!(resolve_format(None, b"gray.pgm"), Some(Format::Pnm));
}

#[test]
fn extension_case_does_not_matter() {
    assert_eq!(resolve_format(None, b"SHOT.PNG"), Some(Format::Png));
    assert_eq!(resolve_format(None, b"photo.JPeG"), Some(Format::Jpeg));
}

#[test]
fn pathological_paths_have_no_format() {
    assert_eq!(resolve_format(None, b"noextension"), None);
    assert_eq!(resolve_format(None, b".hidden"), None);
    assert_eq!(resolve_format(None, b"dir.png/file"), None);
    assert_eq!(resolve_format(None, b"archive.tar"), None);
    assert_eq!(resolve_format(None, b"trailingdot."), None);
    assert_eq!(resolve_format(None, b""), None);
    assert_eq!(resolve_format(None, b"dir/.png"), None);
}

#[test]
fn last_extension_wins_in_the_file_name() {
    assert_eq!(resolve_format(None, b"shot.png.jpeg"), Some(Format::Jpeg));
    assert_eq!(resolve_format(None, b"a.d/b.gif"), Some(Format::Gif));
}

#[test]
fn explicit_flag_beats_the_path_extension() {
    assert_eq!(resolve_format(Some(Format::Jpeg), b"wallpaper.png"), Some(Format::Jpeg));
    assert_eq!(
        resolve_set_format(Some(Format::Jpeg), b"wallpaper.png"),
        Ok(Format::Jpeg)
    );
}

#[test]
fn unresolvable_set_format_is_an_error() {
    assert_eq!(resolve_set_format(None, b"mystery"), Err(WallError::UnknownFormat));
    assert_eq!(resolve_set_format(None, b"tex.dds"), Ok(Format::Dds));
    assert_eq!(resolve_set_format(None, b"anim.webp"), Ok(Format::WebP));
}

#[test]
fn get_rejects_the_unencodable_formats() {
    assert_eq!(resolve_get_format(None, b"out.webp"), Err(WallError::UnknownFormat));
    assert_eq!(resolve_get_format(None, b"out.dds"), Err(WallError::UnknownFormat));
    assert_eq!(
        resolve_get_format(Some(Format::WebP), b"out.png"),
        Err(WallError::UnknownFormat)
    );
    assert_eq!(
        resolve_get_format(Some(Format::Dds), b"out.png"),
        Err(WallError::UnknownFormat)
    );
    assert_eq!(resolve_get_format(None, b"out.bmp"), Ok(Format::Bmp));
    assert!(!encodable(Format::WebP));
    assert!(!encodable(Format::Dds));
    assert!(encodable(Format::Png));
}

#[test]
fn lowercased_extension_table_is_exact() {
    assert_eq!(format_from_ext(b"png"), Some(Format::Png));
    assert_eq!(format_from_ext(b"pbm"), Some(Format::Pnm));
    assert_eq!(format_from_ext(b"pam"), Some(Format::Pnm));
    assert_eq!(format_from_ext(b"ppm"), Some(Format::Pnm));
    assert_eq!(format_from_ext(b"ico"), Some(Format::Ico));
    assert_eq!(format_from_ext(b"tga"), Some(Format::Tga));
    assert_eq!(format_from_ext(b"pnm"), None);
    assert_eq!(format_from_ext(b"PNG"), None);
}
