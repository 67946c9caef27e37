//! What one invocation learns about the target screen.
//!
//! The visual is queried fresh from the server for every `set` or `get` and
//! never cached: the server's configuration may change between runs.

use vstd::prelude::*;

verus! {

/// Order in which the server expects the bytes of a pixel word.
#[derive(Clone, Copy, Debug, PartialEq, Eq, Structural)]
pub enum ByteOrder {
    LsbFirst,
    MsbFirst,
}

/// The default screen's geometry and pixel layout: dimensions, bit depth,
/// byte order, and the channel masks of its default visual.
pub struct ScreenVisual {
    pub width: u32,
    pub height: u32,
    pub depth: u32,
    pub byte_order: ByteOrder,
    pub red_mask: u32,
    pub green_mask: u32,
    pub blue_mask: u32,
}

/// Whether `m` is one of the four byte-aligned 8-bit channel masks a
/// 24- or 32-bit true-color visual uses.
pub open spec fn spec_byte_mask(m: u32) -> bool {
    m == 0xFFu32 || m == 0xFF00u32 || m == 0xFF0000u32 || m == 0xFF000000u32
}

/// Which byte of the 32-bit pixel word (counted from the least significant)
/// the mask selects.
pub open spec fn spec_mask_byte(m: u32) -> int {
    if m == 0xFFu32 {
        0
    } else if m == 0xFF00u32 {
        1
    } else if m == 0xFF0000u32 {
        2
    } else {
        3
    }
}

impl ScreenVisual {
    /// The visuals the pixel packer supports: positive dimensions, depth 24
    /// or 32, and three distinct byte-aligned channel masks.
    pub open spec fn wf(self) -> bool {
        &&& self.width > 0
        &&& self.height > 0
        &&& self.depth == 24 || self.depth == 32
        &&& spec_byte_mask(self.red_mask)
        &&& spec_byte_mask(self.green_mask)
        &&& spec_byte_mask(self.blue_mask)
        &&& self.red_mask != self.green_mask
        &&& self.red_mask != self.blue_mask
        &&& self.green_mask != self.blue_mask
    }

    /// The pixel-word byte holding the red sample.
    pub open spec fn red_byte(self) -> int {
        spec_mask_byte(self.red_mask)
    }

    /// The pixel-word byte holding the green sample.
    pub open spec fn green_byte(self) -> int {
        spec_mask_byte(self.green_mask)
    }

    /// The pixel-word byte holding the blue sample.
    pub open spec fn blue_byte(self) -> int {
        spec_mask_byte(self.blue_mask)
    }

    /// The one pixel-word byte no channel mask selects: padding at depth 24,
    /// the alpha sample at depth 32.
    pub open spec fn alpha_byte(self) -> int {
        6 - self.red_byte() - self.green_byte() - self.blue_byte()
    }

    /// Checks the well-formedness of a visual reported by the server.
    pub fn check(&self) -> (r: bool)
        ensures
            r == self.wf(),
    {
        self.width > 0 && self.height > 0 && (self.depth == 24 || self.depth == 32)
            && byte_mask(self.red_mask) && byte_mask(self.green_mask) && byte_mask(self.blue_mask)
            && self.red_mask != self.green_mask && self.red_mask != self.blue_mask
            && self.green_mask != self.blue_mask
    }
}

/// Checks that a mask is one of the four byte-aligned channel masks.
pub fn byte_mask(m: u32) -> (r: bool)
    ensures
        r == spec_byte_mask(m),
{
    m == 0xFF || m == 0xFF00 || m == 0xFF0000 || m == 0xFF000000
}

/// Which byte of the pixel word a mask selects.
pub fn mask_byte(m: u32) -> (r: usize)
    requires
        spec_byte_mask(m),
    ensures
        r == spec_mask_byte(m),
{
    if m == 0xFF {
        0
    } else if m == 0xFF00 {
        1
    } else if m == 0xFF0000 {
        2
    } else {
        3
    }
}

} // verus!
