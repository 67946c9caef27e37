//! Declarations of the `image` crate's types that cross the library's
//! trusted wrappers: its format enumeration and its error type. Both are
//! opaque here; the wrappers in `codec` convert to and from them.

use vstd::prelude::*;

verus! {

#[verifier::external_type_specification]
#[verifier::external_body]
pub struct ExImageError(image::ImageError);

#[verifier::external_type_specification]
#[verifier::external_body]
pub struct ExImageFormat(image::ImageFormat);

} // verus!
