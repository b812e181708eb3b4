//! Identifies the binary format of a game-asset byte buffer and renders a
//! short human-readable report of its contents.
//!
//! The format is resolved either from a filename extension or from magic
//! bytes probed at fixed positions in the buffer; the classified tag is then
//! dispatched to one report builder per format. Decoding of the container
//! payloads themselves is delegated to external decoder crates; everything
//! around those calls — classification, fallback policy and report text
//! composition — is specified and verified here.
use vstd::prelude::*;

pub mod audio;
pub mod csb;
pub mod fnv;
pub mod param;
pub mod sli;
pub mod sqb;
pub mod ssbh;
pub mod svt;
pub mod tagged;
pub mod text;
pub mod texture;

verus! {

/// The closed set of recognized container formats, plus `Unsupported` for a
/// buffer or extension that matches none of them.
#[derive(Clone, Copy, Debug, PartialEq, Eq, Structural)]
pub enum FileType {
    Nutexb,
    Ssbh,
    Prc,
    Nus3audio,
    Sli,
    Csb,
    Sqb,
    Fnv,
    Svt,
    Unsupported,
}

impl Default for FileType {
    fn default() -> (r: Self)
        ensures
            r == FileType::Unsupported,
    {
        FileType::Unsupported
    }
}

/// The extension table: the format tag mapped to each known filename
/// extension, and `Unsupported` for every other string.
pub open spec fn spec_from_extension(e: Seq<char>) -> FileType {
    if e == "nutexb"@ {
        FileType::Nutexb
    } else if e == "nuhlpb"@ || e == "numatb"@ || e == "numdlb"@ || e == "nusrcmdlb"@
        || e == "numshb"@ || e == "nusktb"@ || e == "nuanmb"@ || e == "nurpdb"@
        || e == "nufxlb"@ || e == "nushdb"@ {
        FileType::Ssbh
    } else if e == "prc"@ || e == "stdat"@ || e == "stprm"@ {
        FileType::Prc
    } else if e == "nus3audio"@ {
        FileType::Nus3audio
    } else if e == "sli"@ {
        FileType::Sli
    } else if e == "csb"@ {
        FileType::Csb
    } else if e == "sqb"@ {
        FileType::Sqb
    } else if e == "fnv"@ {
        FileType::Fnv
    } else if e == "svt"@ {
        FileType::Svt
    } else {
        FileType::Unsupported
    }
}

/// The start-anchored four-byte signatures, by declaration order.
pub open spec fn spec_magic4(c: Seq<u8>) -> Option<FileType> {
    if c.len() >= 4 {
        if c[0] == 0x4eu8 && c[1] == 0x55u8 && c[2] == 0x53u8 && c[3] == 0x33u8 {
            Some(FileType::Nus3audio)  // "NUS3"
        } else if c[0] == 0x53u8 && c[1] == 0x53u8 && c[2] == 0x42u8 && c[3] == 0x48u8 {
            Some(FileType::Ssbh)  // "SSBH"
        } else if c[0] == 0x43u8 && c[1] == 0x53u8 && c[2] == 0x42u8 && c[3] == 0x00u8 {
            Some(FileType::Csb)  // "CSB\0"
        } else if c[0] == 0x53u8 && c[1] == 0x4cu8 && c[2] == 0x49u8 && c[3] == 0x00u8 {
            Some(FileType::Sli)  // "SLI\0"
        } else if c[0] == 0x46u8 && c[1] == 0x4eu8 && c[2] == 0x56u8 && c[3] == 0x00u8 {
            Some(FileType::Fnv)  // "FNV\0"
        } else if c[0] == 0x53u8 && c[1] == 0x56u8 && c[2] == 0x54u8 && c[3] == 0x00u8 {
            Some(FileType::Svt)  // "SVT\0"
        } else if c[0] == 0x53u8 && c[1] == 0x51u8 && c[2] == 0x42u8 && c[3] == 0x00u8 {
            Some(FileType::Sqb)  // "SQB\0"
        } else {
            None
        }
    } else {
        None
    }
}

/// The start-anchored eight-byte signature, "paracobn".
pub open spec fn spec_magic8(c: Seq<u8>) -> Option<FileType> {
    if c.len() >= 8 && c[0] == 0x70u8 && c[1] == 0x61u8 && c[2] == 0x72u8 && c[3] == 0x61u8
        && c[4] == 0x63u8 && c[5] == 0x6fu8 && c[6] == 0x62u8 && c[7] == 0x6eu8 {
        Some(FileType::Prc)
    } else {
        None
    }
}

/// The end-anchored signature: " XET" in the four bytes that start eight
/// bytes before the end of the buffer.
pub open spec fn spec_magic_end(c: Seq<u8>) -> Option<FileType> {
    if c.len() >= 8 && c[c.len() - 8] == 0x20u8 && c[c.len() - 7] == 0x58u8
        && c[c.len() - 6] == 0x45u8 && c[c.len() - 5] == 0x54u8 {
        Some(FileType::Nutexb)
    } else {
        None
    }
}

/// The content cascade: the four-byte start stage first, then the
/// eight-byte start stage, then the end-anchored stage; a stage is skipped
/// when the buffer is shorter than the bytes it probes, and a buffer that
/// satisfies no stage is `Unsupported`.
pub open spec fn spec_from_magic(c: Seq<u8>) -> FileType {
    if spec_magic4(c) is Some {
        spec_magic4(c)->Some_0
    } else if spec_magic8(c) is Some {
        spec_magic8(c)->Some_0
    } else if spec_magic_end(c) is Some {
        spec_magic_end(c)->Some_0
    } else {
        FileType::Unsupported
    }
}

/// String equality by contents.
fn str_eq(a: &str, b: &str) -> (r: bool)
    ensures
        r == (a@ == b@),
{
    let x = a.to_owned();
    let y = b.to_owned();
    x == y
}

impl FileType {
    /// Exact, case-sensitive lookup of `ext` in the extension table.
    /// Never fails: an unknown extension is the `Unsupported` outcome.
    pub fn from_extension(ext: &str) -> (t: Self)
        ensures
            t == spec_from_extension(ext@),
    {
        if str_eq(ext, "nutexb") {
            Self::Nutexb
        } else if str_eq(ext, "nuhlpb") || str_eq(ext, "numatb") || str_eq(ext, "numdlb")
            || str_eq(ext, "nusrcmdlb") || str_eq(ext, "numshb") || str_eq(ext, "nusktb")
            || str_eq(ext, "nuanmb") || str_eq(ext, "nurpdb") || str_eq(ext, "nufxlb")
            || str_eq(ext, "nushdb") {
            Self::Ssbh
        } else if str_eq(ext, "prc") || str_eq(ext, "stdat") || str_eq(ext, "stprm") {
            Self::Prc
        } else if str_eq(ext, "nus3audio") {
            Self::Nus3audio
        } else if str_eq(ext, "sli") {
            Self::Sli
        } else if str_eq(ext, "csb") {
            Self::Csb
        } else if str_eq(ext, "sqb") {
            Self::Sqb
        } else if str_eq(ext, "fnv") {
            Self::Fnv
        } else if str_eq(ext, "svt") {
            Self::Svt
        } else {
            Self::Unsupported
        }
    }

    /// Resolves a format tag from the buffer contents alone, by the
    /// prioritized signature cascade. Buffers too short for a stage skip
    /// that stage; a buffer shorter than four bytes is always
    /// `Unsupported`, and no stage reads outside the buffer.
    pub fn from_magic(contents: &[u8]) -> (t: Self)
        ensures
            t == spec_from_magic(contents@),
    {
        let n = contents.len();
        if n >= 4 {
            let b0 = contents[0];
            let b1 = contents[1];
            let b2 = contents[2];
            let b3 = contents[3];
            if b0 == 0x4e && b1 == 0x55 && b2 == 0x53 && b3 == 0x33 {
                return Self::Nus3audio;
            }
            if b0 == 0x53 && b1 == 0x53 && b2 == 0x42 && b3 == 0x48 {
                return Self::Ssbh;
            }
            if b0 == 0x43 && b1 == 0x53 && b2 == 0x42 && b3 == 0x00 {
                return Self::Csb;
            }
            if b0 == 0x53 && b1 == 0x4c && b2 == 0x49 && b3 == 0x00 {
                return Self::Sli;
            }
            if b0 == 0x46 && b1 == 0x4e && b2 == 0x56 && b3 == 0x00 {
                return Self::Fnv;
            }
            if b0 == 0x53 && b1 == 0x56 && b2 == 0x54 && b3 == 0x00 {
                return Self::Svt;
            }
            if b0 == 0x53 && b1 == 0x51 && b2 == 0x42 && b3 == 0x00 {
                return Self::Sqb;
            }
            if n >= 8 {
                if b0 == 0x70 && b1 == 0x61 && b2 == 0x72 && b3 == 0x61 && contents[4] == 0x63
                    && contents[5] == 0x6f && contents[6] == 0x62 && contents[7] == 0x6e {
                    return Self::Prc;
                }
                if contents[n - 8] == 0x20 && contents[n - 7] == 0x58 && contents[n - 6] == 0x45
                    && contents[n - 5] == 0x54 {
                    return Self::Nutexb;
                }
            }
        }
        Self::Unsupported
    }
}

/// Every buffer shorter than the minimum probe width of four bytes
/// classifies as `Unsupported`: no signature stage applies to it.
pub proof fn lemma_short_buffer_unsupported(c: Seq<u8>)
    requires
        c.len() < 4,
    ensures
        spec_from_magic(c) == FileType::Unsupported,
{
}

/// What the dispatcher's result must say for a classified tag: the
/// matching builder's report for these bytes, the format's fixed fallback
/// text where no decoder collaborator exists, and the fixed sentinel for
/// an unsupported tag. The parameter builder's labels pass through a
/// process-global table, so its decoded tree is not a fixed function of
/// the bytes: for that tag the result is the fixed fallback exactly when
/// the decoder rejects the bytes, and otherwise some decoded tree's
/// report.
pub open spec fn spec_dispatch_ok(c: Seq<u8>, t: FileType, r: Seq<char>) -> bool {
    match t {
        FileType::Nutexb => r == texture::spec_tex_report(texture::tex_info_of(c)),
        FileType::Ssbh => r == ssbh::spec_ssbh_report(ssbh::ssbh_data_of(c)),
        FileType::Prc => (if param::param_decodes(c) {
            exists|e: Vec<(Option<String>, tagged::TaggedNode)>| r == param::spec_param_report(
                Some(e),
            )
        } else {
            r == param::spec_param_report(None)
        }),
        FileType::Nus3audio => r == audio::spec_audio_report(audio::audio_files_of(c)),
        FileType::Sli => r == "Sound Label Info File\n\n"@,
        FileType::Csb => r == "Common Sound Table File\n"@,
        FileType::Sqb => r == "Sound Sequence Data File"@,
        FileType::Fnv => r == "Smash Ultimate 'Volume by Fighter Count' File\nInvalid fnv file"@,
        FileType::Svt => r == "Smash Ultimate Sound Volume Table File\nInvalid svt file"@,
        FileType::Unsupported => r == "No info"@,
    }
}

/// Routes a classified tag and the raw bytes to that format's report
/// builder; an unsupported tag reports the fixed sentinel text. The
/// dispatcher itself never fails.
pub fn get_from_file_type(contents: &[u8], file_type: FileType) -> (r: String)
    ensures
        spec_dispatch_ok(contents@, file_type, r@),
{
    match file_type {
        FileType::Nutexb => texture::info(contents),
        FileType::Ssbh => ssbh::info(contents),
        FileType::Prc => param::info(contents),
        FileType::Nus3audio => audio::info(contents),
        FileType::Sli => sli::info(contents),
        FileType::Csb => csb::info(contents),
        FileType::Sqb => sqb::info(contents),
        FileType::Fnv => fnv::info(contents),
        FileType::Svt => svt::info(contents),
        FileType::Unsupported => "No info".to_owned(),
    }
}

/// Classifies by filename extension and dispatches to the matching
/// builder.
pub fn get_from_extension(contents: &[u8], extension: &str) -> (r: String)
    ensures
        spec_dispatch_ok(contents@, spec_from_extension(extension@), r@),
{
    get_from_file_type(contents, FileType::from_extension(extension))
}

/// Classifies by buffer contents and dispatches to the matching builder.
pub fn get_from_magic(contents: &[u8]) -> (r: String)
    ensures
        spec_dispatch_ok(contents@, spec_from_magic(contents@), r@),
{
    get_from_file_type(contents, FileType::from_magic(contents))
}

/// The sentinel report is owed exactly to the unsupported outcome: any
/// dispatcher result for the `Unsupported` tag is the fixed sentinel text,
/// whatever the buffer held — in particular for the empty buffer and any
/// extension outside the table, which both classify as unsupported.
pub proof fn lemma_sentinel_for_unrecognized(c: Seq<u8>, r: Seq<char>)
    requires
        spec_dispatch_ok(c, FileType::Unsupported, r),
    ensures
        r == "No info"@,
{
}

/// First-stage-wins priority: a buffer satisfying an earlier stage of the
/// cascade classifies by that stage's tag, whatever the later stages would
/// say — in particular, one carrying both a four-byte start signature and
/// a later-stage signature classifies by the four-byte stage.
pub proof fn lemma_cascade_priority(c: Seq<u8>)
    ensures
        spec_magic4(c) is Some ==> spec_from_magic(c) == spec_magic4(c)->Some_0,
        spec_magic4(c) is None && spec_magic8(c) is Some ==> spec_from_magic(c) == spec_magic8(
            c,
        )->Some_0,
        spec_magic4(c) is None && spec_magic8(c) is None && spec_magic_end(c) is Some
            ==> spec_from_magic(c) == spec_magic_end(c)->Some_0,
{
}

} // verus!
