//! Report builder for common sound table files. No decoder collaborator for this format
//! can be linked by this library, so every buffer takes the decode-failure
//! path and the builder reports its fixed fallback text: the bare title line.
use vstd::prelude::*;

verus! {

/// Builds the report for a raw buffer. With the decoder absent, every
/// buffer reports the format's fixed fallback text.
pub fn info(_contents: &[u8]) -> (r: String)
    ensures
        r@ == "Common Sound Table File\n"@,
{
    "Common Sound Table File\n".to_owned()
}

} // verus!
