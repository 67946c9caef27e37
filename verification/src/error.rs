//! The error kinds a `set` or `get` invocation can surface.

use vstd::prelude::*;

verus! {

/// Every failure the core reports. Each variant is surfaced once to the
/// caller and never retried.
#[derive(Clone, Copy, Debug, PartialEq, Eq, Structural)]
pub enum WallError {
    /// No format flag was given and the path's extension names no supported
    /// format (or names one the operation cannot handle).
    UnknownFormat,
    /// The image bytes do not form a valid container of the resolved format.
    CorruptData,
    /// No display server is reachable; fatal, not retried.
    Connect,
    /// The server rejected creation or upload of the pixmap.
    ServerRejected,
    /// Neither wallpaper atom is present on the root window: nothing was
    /// installed by this convention. A normal, reportable condition.
    NoWallpaperSet,
    /// The pixmap referenced by the atoms no longer exists on the server.
    StaleHandle,
    /// The encoder failed to write the raster in the requested format.
    EncodeFailed,
}

impl WallError {
    /// The message printed at the command-line boundary for this error.
    pub open spec fn spec_message(self) -> Seq<char> {
        match self {
            WallError::UnknownFormat => "could not determine the image format"@,
            WallError::CorruptData => "the image data is corrupt or truncated"@,
            WallError::Connect => "could not connect to the display server"@,
            WallError::ServerRejected => "the display server rejected the pixmap"@,
            WallError::NoWallpaperSet => "no wallpaper was set"@,
            WallError::StaleHandle => "the current wallpaper pixmap no longer exists"@,
            WallError::EncodeFailed => "could not encode the image"@,
        }
    }

    /// A human-readable description of the failure.
    pub fn message(&self) -> (r: String)
        ensures
            r@ == self.spec_message(),
    {
        match self {
            WallError::UnknownFormat => "could not determine the image format".to_owned(),
            WallError::CorruptData => "the image data is corrupt or truncated".to_owned(),
            WallError::Connect => "could not connect to the display server".to_owned(),
            WallError::ServerRejected => "the display server rejected the pixmap".to_owned(),
            WallError::NoWallpaperSet => "no wallpaper was set".to_owned(),
            WallError::StaleHandle => "the current wallpaper pixmap no longer exists".to_owned(),
            WallError::EncodeFailed => "could not encode the image".to_owned(),
        }
    }
}

} // verus!
