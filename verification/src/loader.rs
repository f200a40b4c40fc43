//! Executable loading: format detection and the homebrew format itself.

use vstd::prelude::*;

pub mod threedsx;

verus! {

use crate::loader::threedsx::s_check_magic;

pub enum RomFormat {
    ThreeDSX,
    Unknown,
}

/// Classify an image by its magic bytes.
pub fn detect_format(data: &[u8]) -> (r: RomFormat)
    ensures
        r is ThreeDSX <==> s_check_magic(data@),
{
    if data.len() >= 4 && threedsx::check_magic(data) {
        RomFormat::ThreeDSX
    } else {
        RomFormat::Unknown
    }
}

} // verus!
