//! Report builder for texture files: the decoder collaborator surfaces the
//! footer fields, and the report shows the version, the internal name
//! (with a leftover magic prefix stripped), the pixel size, the depth and
//! the mip count. A buffer the decoder rejects reports the bare title.
use crate::ssbh::{debug_quote, debug_str_of, spec_version, version_text};
use crate::text::{spec_digits, u64_string};
use vstd::prelude::*;
use vstd::string::{StrSliceExecFns, StringExecFns};

verus! {

/// The footer fields a texture report reads, as plain values.
pub struct TexInfo {
    pub major: u16,
    pub minor: u16,
    pub name: String,
    pub width: u32,
    pub height: u32,
    pub depth: u32,
    pub mip_count: u32,
}

/// What the decoder surfaces for a buffer: `None` when it rejects the
/// bytes, otherwise the footer fields. Texture parsing reads the bytes
/// alone, so the outcome is a fixed function of the buffer.
pub uninterp spec fn tex_info_of(b: Seq<u8>) -> Option<TexInfo>;

/// Relies on nutexb::NutexbFile::read: parses a texture file, `Ok` exactly
/// on well-formed files, and converts the footer fields one for one; the
/// internal name converts through the footer string's display form.
#[verifier::external_body]
fn decode_tex(contents: &[u8]) -> (r: Option<TexInfo>)
    ensures
        r == tex_info_of(contents@),
{
    nutexb::NutexbFile::read(&mut std::io::Cursor::new(contents)).ok().map(|t| TexInfo {
        major: t.footer.version.0,
        minor: t.footer.version.1,
        name: t.footer.string.to_string(),
        width: t.footer.width,
        height: t.footer.height,
        depth: t.footer.depth,
        mip_count: t.footer.mipmap_count,
    })
}

/// The internal name with the leftover `" XNT"` magic prefix stripped,
/// when it carries one.
pub open spec fn spec_strip_xnt(s: Seq<char>) -> Seq<char> {
    if s.len() >= 4 && s.subrange(0, 4) == " XNT"@ {
        s.skip(4)
    } else {
        s
    }
}

/// Strips the leftover `" XNT"` magic prefix from an internal name.
pub fn strip_xnt(name: &str) -> (r: String)
    ensures
        r@ == spec_strip_xnt(name@),
{
    proof {
        reveal_strlit(" XNT");
    }
    let len = name.unicode_len();
    if len >= 4 && name.get_char(0) == ' ' && name.get_char(1) == 'X' && name.get_char(2) == 'N'
        && name.get_char(3) == 'T' {
        assert(name@.subrange(0, 4) =~= " XNT"@);
        let rest = name.substring_char(4, len);
        assert(rest@ =~= name@.skip(4));
        rest.to_owned()
    } else {
        assert(name@.subrange(0, 4) != " XNT"@ || name@.len() < 4) by {
            if name@.len() >= 4 {
                assert(name@.subrange(0, 4)[0] == name@[0]);
                assert(name@.subrange(0, 4)[1] == name@[1]);
                assert(name@.subrange(0, 4)[2] == name@[2]);
                assert(name@.subrange(0, 4)[3] == name@[3]);
            }
        }
        name.to_owned()
    }
}

/// What a texture report says for each decode outcome: the bare title on
/// decode failure, otherwise the filled template.
pub open spec fn spec_tex_report(t: Option<TexInfo>) -> Seq<char> {
    match t {
        None => "Namco Texture"@,
        Some(info) => "Namco Texture v"@ + spec_version(info.major, info.minor)
            + "\n\nInternal name: "@ + debug_str_of(spec_strip_xnt(info.name@)) + "\n\nSize: "@
            + spec_digits(info.width as nat) + "x"@ + spec_digits(info.height as nat)
            + "\nDepth: "@ + spec_digits(info.depth as nat) + "\nMips: "@ + spec_digits(
            info.mip_count as nat,
        ) + "\n"@,
    }
}

/// Composes the report for a decode outcome.
pub fn report_from_tex(t: &Option<TexInfo>) -> (r: String)
    ensures
        r@ == spec_tex_report(*t),
{
    match t {
        None => "Namco Texture".to_owned(),
        Some(info) => {
            let mut s = "Namco Texture v".to_owned();
            let v = version_text(info.major, info.minor);
            s.append(v.as_str());
            s.append("\n\nInternal name: ");
            let stripped = strip_xnt(info.name.as_str());
            let nm = debug_quote(stripped.as_str());
            s.append(nm.as_str());
            s.append("\n\nSize: ");
            let w = u64_string(info.width as u64);
            s.append(w.as_str());
            s.append("x");
            let h = u64_string(info.height as u64);
            s.append(h.as_str());
            s.append("\nDepth: ");
            let d = u64_string(info.depth as u64);
            s.append(d.as_str());
            s.append("\nMips: ");
            let m = u64_string(info.mip_count as u64);
            s.append(m.as_str());
            s.append("\n");
            assert(s@ =~= spec_tex_report(*t));
            s
        },
    }
}

/// Builds the texture report for a raw buffer: the decoder's outcome for
/// these bytes, composed by `report_from_tex`.
pub fn info(contents: &[u8]) -> (r: String)
    ensures
        r@ == spec_tex_report(tex_info_of(contents@)),
{
    let t = decode_tex(contents);
    report_from_tex(&t)
}

} // verus!
