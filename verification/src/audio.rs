//! Report builder for audio containers: the decoder collaborator lists the
//! contained audio files, and the report is a fixed title followed by one
//! line per file with its id in a width-two column, its filename, and its
//! size in human-readable binary units.
use crate::text::{spec_pad2, u32_pad2_string};
use vstd::prelude::*;
use vstd::string::StringExecFns;

verus! {

/// What humansize's binary formatting of a byte count says, e.g.
/// "1.21 KiB"; a fixed function of the count alone.
pub uninterp spec fn human_size_of(n: nat) -> Seq<char>;

/// Relies on humansize::format_size with binary units: the result depends
/// on the byte count alone.
#[verifier::external_body]
fn human_size(n: u64) -> (r: String)
    ensures
        r@ == human_size_of(n as nat),
{
    humansize::format_size(n, humansize::BINARY)
}

/// What the decoder surfaces for a buffer: `None` when it rejects the
/// bytes or its parse aborts on them, otherwise one entry per contained
/// file. Container parsing and the conversion read the bytes alone, so
/// the outcome is a fixed function of the buffer.
pub uninterp spec fn audio_files_of(b: Seq<u8>) -> Option<Vec<(u32, String, u64)>>;

/// Relies on nus3audio::Nus3audioFile::try_from_bytes: parses an audio
/// container, `Some` exactly on well-formed containers; each contained
/// file is converted one for one to its id, its filename (the stored name
/// plus the suffix chosen from the data's own magic), and its data's byte
/// length. The parse runs on its own scoped thread, because the parser
/// unwraps inner results and slices file-supplied ranges unchecked: such
/// an abort on malformed bytes is confined to that thread and becomes the
/// `None` outcome.
#[verifier::external_body]
fn decode_audio(contents: &[u8]) -> (r: Option<Vec<(u32, String, u64)>>)
    ensures
        r == audio_files_of(contents@),
{
    crossbeam_utils::thread::scope(|s| {
        s.spawn(|_| {
            nus3audio::Nus3audioFile::try_from_bytes(contents).map(
                |f| f.files.iter().map(|a| (a.id, a.filename(), a.data.len() as u64)).collect(),
            )
        }).join().ok().flatten()
    }).ok().flatten()
}

/// The report line for one contained audio file.
pub open spec fn spec_audio_line(id: u32, name: Seq<char>, size: u64) -> Seq<char> {
    "["@ + spec_pad2(id as nat) + "] "@ + name + " ("@ + human_size_of(size as nat) + ")\n"@
}

/// The report lines for the contained files from position `i` on.
pub open spec fn spec_audio_lines(files: Seq<(u32, String, u64)>, i: int) -> Seq<char>
    decreases files.len() - i,
{
    if 0 <= i < files.len() {
        spec_audio_line(files[i].0, files[i].1@, files[i].2) + spec_audio_lines(files, i + 1)
    } else {
        Seq::empty()
    }
}

/// What an audio container report says: the fixed title block, then one
/// line per contained file, and an empty file list on decode failure.
pub open spec fn spec_audio_report(files: Option<Vec<(u32, String, u64)>>) -> Seq<char> {
    "Namco Audio Container\n\nFiles:\n"@ + match files {
        Some(v) => spec_audio_lines(v@, 0),
        None => Seq::empty(),
    }
}

/// Composes the report for a decode outcome: the fixed title block, then
/// the file lines when a container was decoded.
pub fn report_from_files(files: &Option<Vec<(u32, String, u64)>>) -> (r: String)
    ensures
        r@ == spec_audio_report(*files),
{
    let mut s = "Namco Audio Container\n\nFiles:\n".to_owned();
    match files {
        Some(v) => {
            let n = v.len();
            let mut i: usize = 0;
            while i < n
                invariant
                    i <= n,
                    n == v@.len(),
                    "Namco Audio Container\n\nFiles:\n"@ + spec_audio_lines(v@, 0) == s@
                        + spec_audio_lines(v@, i as int),
                decreases n - i,
            {
                s.append("[");
                let id = u32_pad2_string(v[i].0);
                s.append(id.as_str());
                s.append("] ");
                s.append(v[i].1.as_str());
                s.append(" (");
                let hs = human_size(v[i].2);
                s.append(hs.as_str());
                s.append(")\n");
                proof {
                    assert("Namco Audio Container\n\nFiles:\n"@ + spec_audio_lines(v@, 0) =~= s@
                        + spec_audio_lines(v@, i + 1));
                }
                i = i + 1;
            }
        },
        None => {},
    }
    assert(s@ =~= spec_audio_report(*files));
    s
}

/// Builds the audio container report for a raw buffer: the decoder's
/// outcome for these bytes, composed by `report_from_files`.
pub fn info(contents: &[u8]) -> (r: String)
    ensures
        r@ == spec_audio_report(audio_files_of(contents@)),
{
    let files = decode_audio(contents);
    report_from_files(&files)
}

} // verus!
