//! Core logic of a wallpaper tool for X11 desktops.
//!
//! The library owns everything that can be stated and proved: image format
//! resolution, the RGBA raster model, packing pixels for a screen's visual,
//! nearest-neighbour resizing, and the root-window install protocol over the
//! `_XROOTPMAP_ID` / `ESETROOT_PMAP_ID` atom convention. Decoding and encoding
//! of image containers is delegated to the `image` crate behind trusted
//! wrappers; talking to the display server is left to the binary around the
//! library.

pub mod codec;
pub mod error;
pub mod format;
pub mod imagedep;
pub mod pack;
pub mod raster;
pub mod root;
pub mod visual;
pub mod wallpaper;
