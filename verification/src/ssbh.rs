//! Report builders for the SSBH container family: animation, skeleton,
//! mesh, material, model and helper-bone files.
//!
//! The decoder collaborator parses the buffer and its output is converted,
//! field for field, into the plain data model below; every report template
//! is then composed by verified code. A buffer the decoder rejects reports
//! the fixed fallback line, and a sub-format without a template reports the
//! bare family line.
use crate::text::{spec_digits, u128_string, u64_string};
use ssbh_lib::formats::matl::{ParamV15, ParamV16};
use ssbh_lib::Version;
use vstd::prelude::*;
use vstd::string::StringExecFns;

verus! {

/// One material attribute value in display form: floats and vector
/// components carry their final textual representation, booleans carry the
/// raw decoded word so the three-way rendering rule below stays visible,
/// strings may be absent, and any other parameter kind renders as a bare
/// attribute line.
pub enum AttrValue {
    Float(String),
    Boolean(u32),
    Vector4(String, String, String, String),
    MatlString(Option<String>),
    Other,
}

/// One named material: its label, its shader label, and its attributes as
/// `(parameter name, optional value)` pairs; an attribute whose value data
/// is absent is skipped by the renderer.
pub struct MatlEntryData {
    pub material_label: Option<String>,
    pub shader_label: Option<String>,
    pub attributes: Vec<(String, Option<AttrValue>)>,
}

/// One aim constraint: its name and the six bone and type names shown in
/// the report.
pub struct AimData {
    pub name: Option<String>,
    pub aim1: Option<String>,
    pub aim2: Option<String>,
    pub type1: Option<String>,
    pub type2: Option<String>,
    pub target1: Option<String>,
    pub target2: Option<String>,
}

/// One orient (interpolation) constraint: its name, the four bone names
/// shown in the report, and the two range vectors in display form.
pub struct InterpData {
    pub name: Option<String>,
    pub bone: Option<String>,
    pub root: Option<String>,
    pub parent: Option<String>,
    pub driver: Option<String>,
    pub min: (String, String, String),
    pub max: (String, String, String),
}

/// What the decoder surfaced from an SSBH buffer, reduced to the plain
/// values the reports read. `Other` stands for the family members that have
/// no report template.
#[allow(inconsistent_fields)]
pub enum SsbhData {
    Anim { major: u16, minor: u16, name: Option<String>, group_count: usize, final_frame: String },
    Skel { major: u16, minor: u16, bones: Vec<Option<String>> },
    Mesh { major: u16, minor: u16, model_name: Option<String>, objects: Vec<(Option<String>, u32)> },
    Matl { major: u16, minor: u16, entries: Vec<MatlEntryData> },
    Modl {
        major: u16,
        minor: u16,
        model_name: Option<String>,
        skeleton_file_name: Option<String>,
        animation_file_name: Option<String>,
        mesh_file_name: Option<String>,
        material_file_names: Vec<Option<String>>,
        entries: Vec<(Option<String>, u64, Option<String>)>,
    },
    Hlpb { major: u16, minor: u16, aim_entries: Vec<AimData>, interpolation_entries: Vec<InterpData> },
    Other,
}

#[verifier::external_type_specification]
#[verifier::external_body]
pub struct ExAnim(ssbh_lib::formats::anim::Anim);

#[verifier::external_type_specification]
#[verifier::external_body]
pub struct ExSkel(ssbh_lib::formats::skel::Skel);

#[verifier::external_type_specification]
#[verifier::external_body]
pub struct ExMesh(ssbh_lib::formats::mesh::Mesh);

#[verifier::external_type_specification]
#[verifier::external_body]
pub struct ExMatl(ssbh_lib::formats::matl::Matl);

#[verifier::external_type_specification]
#[verifier::external_body]
pub struct ExModl(ssbh_lib::formats::modl::Modl);

#[verifier::external_type_specification]
#[verifier::external_body]
pub struct ExHlpb(ssbh_lib::formats::hlpb::Hlpb);

#[verifier::external_type_specification]
#[verifier::external_body]
pub struct ExMatlEntryV15(ssbh_lib::formats::matl::MatlEntryV15);

#[verifier::external_type_specification]
#[verifier::external_body]
pub struct ExMatlEntryV16(ssbh_lib::formats::matl::MatlEntryV16);

#[verifier::external_type_specification]
#[verifier::external_body]
pub struct ExAttributeV15(ssbh_lib::formats::matl::AttributeV15);

#[verifier::external_type_specification]
#[verifier::external_body]
pub struct ExAttributeV16(ssbh_lib::formats::matl::AttributeV16);

#[verifier::external_type_specification]
#[verifier::external_body]
pub struct ExParamV15(ssbh_lib::formats::matl::ParamV15);

#[verifier::external_type_specification]
#[verifier::external_body]
pub struct ExParamV16(ssbh_lib::formats::matl::ParamV16);

#[verifier::external_type_specification]
#[verifier::external_body]
pub struct ExModlEntry(ssbh_lib::formats::modl::ModlEntry);

#[verifier::external_type_specification]
#[verifier::external_body]
pub struct ExAimConstraint(ssbh_lib::formats::hlpb::AimConstraint);

#[verifier::external_type_specification]
#[verifier::external_body]
pub struct ExOrientConstraint(ssbh_lib::formats::hlpb::OrientConstraint);

/// What the decoder surfaces for a buffer: `None` when it rejects the
/// bytes, otherwise the converted data. SSBH parsing and the conversion
/// read the bytes alone, so the outcome is a fixed function of the buffer.
pub uninterp spec fn ssbh_data_of(b: Seq<u8>) -> Option<SsbhData>;

/// Relies on ssbh_lib::formats::anim::Anim's field layout; converts the
/// displayed fields one for one, rendering the final frame index's float in
/// its display form. The track list stands in for the group list in the
/// one version that stores tracks directly.
#[verifier::external_body]
fn conv_anim(a: &ssbh_lib::formats::anim::Anim) -> SsbhData {
    let (major, minor) = a.major_minor_version();
    match a {
        ssbh_lib::formats::anim::Anim::V12 { name, final_frame_index, tracks, .. } => SsbhData::Anim {
            major, minor, name: name.to_str().map(String::from),
            group_count: tracks.elements.len(), final_frame: format!("{}", final_frame_index),
        },
        ssbh_lib::formats::anim::Anim::V20 { name, final_frame_index, groups, .. }
        | ssbh_lib::formats::anim::Anim::V21 { name, final_frame_index, groups, .. } => SsbhData::Anim {
            major, minor, name: name.to_str().map(String::from),
            group_count: groups.elements.len(), final_frame: format!("{}", final_frame_index),
        },
    }
}

/// Relies on ssbh_lib::formats::skel::Skel's field layout; converts each
/// bone entry to its optional name.
#[verifier::external_body]
fn conv_skel(s: &ssbh_lib::formats::skel::Skel) -> SsbhData {
    let (major, minor) = s.major_minor_version();
    match s {
        ssbh_lib::formats::skel::Skel::V10 { bone_entries, .. } => SsbhData::Skel {
            major, minor,
            bones: bone_entries.elements.iter().map(|b| b.name.to_str().map(String::from)).collect(),
        },
    }
}

/// Relies on ssbh_lib::formats::mesh::Mesh's field layout; converts each
/// mesh object to its optional name and its vertex count. Each stored
/// version is handled by its own converter.
#[verifier::external_body]
fn conv_mesh(m: &ssbh_lib::formats::mesh::Mesh) -> SsbhData {
    let (major, minor) = m.major_minor_version();
    match m {
        ssbh_lib::formats::mesh::Mesh::V8(i) => SsbhData::Mesh {
            major, minor, model_name: i.model_name.to_str().map(String::from),
            objects: i.objects.elements.iter().map(|o| (o.name.to_str().map(String::from), o.vertex_count)).collect(),
        },
        _ => conv_mesh_v9(m),
    }
}

/// Relies on ssbh_lib::formats::mesh::Mesh's field layout, for the second
/// stored version.
#[verifier::external_body]
fn conv_mesh_v9(m: &ssbh_lib::formats::mesh::Mesh) -> SsbhData {
    let (major, minor) = m.major_minor_version();
    match m {
        ssbh_lib::formats::mesh::Mesh::V9(i) => SsbhData::Mesh {
            major, minor, model_name: i.model_name.to_str().map(String::from),
            objects: i.objects.elements.iter().map(|o| (o.name.to_str().map(String::from), o.vertex_count)).collect(),
        },
        _ => conv_mesh_v10(m),
    }
}

/// Relies on ssbh_lib::formats::mesh::Mesh's field layout, for the third
/// stored version.
#[verifier::external_body]
fn conv_mesh_v10(m: &ssbh_lib::formats::mesh::Mesh) -> SsbhData {
    let (major, minor) = m.major_minor_version();
    match m {
        ssbh_lib::formats::mesh::Mesh::V10(i) => SsbhData::Mesh {
            major, minor, model_name: i.model_name.to_str().map(String::from),
            objects: i.objects.elements.iter().map(|o| (o.name.to_str().map(String::from), o.vertex_count)).collect(),
        },
        earlier => conv_mesh(earlier),
    }
}

/// Relies on ssbh_lib::formats::matl::Matl's field layout; converts the
/// entries of either stored version one for one.
#[verifier::external_body]
fn conv_matl(m: &ssbh_lib::formats::matl::Matl) -> SsbhData {
    let (major, minor) = m.major_minor_version();
    let entries = match m {
        ssbh_lib::formats::matl::Matl::V15 { entries } => entries.elements.iter().map(|e| conv_entry15(e)).collect(),
        ssbh_lib::formats::matl::Matl::V16 { entries } => entries.elements.iter().map(|e| conv_entry16(e)).collect(),
    };
    SsbhData::Matl { major, minor, entries }
}

/// Relies on ssbh_lib::formats::matl::MatlEntryV15's field layout.
#[verifier::external_body]
fn conv_entry15(e: &ssbh_lib::formats::matl::MatlEntryV15) -> MatlEntryData {
    MatlEntryData {
        material_label: e.material_label.to_str().map(String::from),
        shader_label: e.shader_label.to_str().map(String::from),
        attributes: e.attributes.elements.iter().map(|a| conv_attr15(a)).collect(),
    }
}

/// Relies on ssbh_lib::formats::matl::MatlEntryV16's field layout.
#[verifier::external_body]
fn conv_entry16(e: &ssbh_lib::formats::matl::MatlEntryV16) -> MatlEntryData {
    MatlEntryData {
        material_label: e.material_label.to_str().map(String::from),
        shader_label: e.shader_label.to_str().map(String::from),
        attributes: e.attributes.elements.iter().map(|a| conv_attr16(a)).collect(),
    }
}

/// Relies on ssbh_lib::formats::matl::AttributeV15: the parameter name is
/// the id's debug form, and an absent value pointer converts to `None`.
#[verifier::external_body]
fn conv_attr15(a: &ssbh_lib::formats::matl::AttributeV15) -> (String, Option<AttrValue>) {
    (format!("{:?}", a.param_id), (*a.param.data).as_ref().map(|p| conv_param15(p)))
}

/// Relies on ssbh_lib::formats::matl::AttributeV16: the parameter name is
/// the id's debug form, and an absent value pointer converts to `None`.
#[verifier::external_body]
fn conv_attr16(a: &ssbh_lib::formats::matl::AttributeV16) -> (String, Option<AttrValue>) {
    (format!("{:?}", a.param_id), (*a.param.data).as_ref().map(|p| conv_param16(p)))
}

/// Converts one decoded material parameter value, variant for variant,
/// rendering float components in their display form.
#[verifier::external_body]
fn conv_param15(p: &ssbh_lib::formats::matl::ParamV15) -> AttrValue {
    match p {
        ParamV15::Float(x) => AttrValue::Float(format!("{}", x)),
        ParamV15::Boolean(x) => AttrValue::Boolean(*x),
        ParamV15::Vector4(v) => AttrValue::Vector4(
            format!("{}", v.x), format!("{}", v.y), format!("{}", v.z), format!("{}", v.w)),
        ParamV15::String(s) => AttrValue::MatlString(s.to_str().map(String::from)),
        _ => AttrValue::Other,
    }
}

/// Converts one decoded material parameter value, variant for variant,
/// rendering float components in their display form.
#[verifier::external_body]
fn conv_param16(p: &ssbh_lib::formats::matl::ParamV16) -> AttrValue {
    match p {
        ParamV16::Float(x) => AttrValue::Float(format!("{}", x)),
        ParamV16::Boolean(x) => AttrValue::Boolean(*x),
        ParamV16::Vector4(v) => AttrValue::Vector4(
            format!("{}", v.x), format!("{}", v.y), format!("{}", v.z), format!("{}", v.w)),
        ParamV16::String(s) => AttrValue::MatlString(s.to_str().map(String::from)),
        _ => AttrValue::Other,
    }
}

/// Relies on ssbh_lib::formats::modl::Modl's field layout; converts the
/// displayed names one for one and each entry to its name, sub-index and
/// material label.
#[verifier::external_body]
fn conv_modl(m: &ssbh_lib::formats::modl::Modl) -> SsbhData {
    let (major, minor) = m.major_minor_version();
    match m {
        ssbh_lib::formats::modl::Modl::V17 { model_name, skeleton_file_name, material_file_names, animation_file_name,
            mesh_file_name, entries } => SsbhData::Modl {
            major, minor,
            model_name: model_name.to_str().map(String::from),
            skeleton_file_name: skeleton_file_name.to_str().map(String::from),
            animation_file_name: animation_file_name.as_ref().and_then(|s| s.to_str()).map(String::from),
            mesh_file_name: mesh_file_name.to_str().map(String::from),
            material_file_names: material_file_names.elements.iter().map(|s| s.to_str().map(String::from)).collect(),
            entries: entries.elements.iter().map(|e| conv_modl_entry(e)).collect(),
        },
    }
}

/// Relies on ssbh_lib::formats::modl::ModlEntry's field layout: the mesh
/// object name, its sub-index, and its material label, one for one.
#[verifier::external_body]
fn conv_modl_entry(e: &ssbh_lib::formats::modl::ModlEntry) -> (Option<String>, u64, Option<String>) {
    (e.mesh_object_name.to_str().map(String::from), e.mesh_object_subindex,
        e.material_label.to_str().map(String::from))
}

/// Relies on ssbh_lib::formats::hlpb::Hlpb's field layout; converts each
/// aim and orient constraint through its own converter.
#[verifier::external_body]
fn conv_hlpb(h: &ssbh_lib::formats::hlpb::Hlpb) -> SsbhData {
    let (major, minor) = h.major_minor_version();
    match h {
        ssbh_lib::formats::hlpb::Hlpb::V11 { aim_constraints, orient_constraints, .. } => SsbhData::Hlpb {
            major, minor,
            aim_entries: aim_constraints.elements.iter().map(|e| conv_aim(e)).collect(),
            interpolation_entries: orient_constraints.elements.iter().map(|e| conv_orient(e)).collect(),
        },
    }
}

/// Relies on ssbh_lib::formats::hlpb::AimConstraint's field layout.
#[verifier::external_body]
fn conv_aim(e: &ssbh_lib::formats::hlpb::AimConstraint) -> AimData {
    AimData {
        name: e.name.to_str().map(String::from),
        aim1: e.aim_bone_name1.to_str().map(String::from),
        aim2: e.aim_bone_name2.to_str().map(String::from),
        type1: e.aim_type1.to_str().map(String::from),
        type2: e.aim_type2.to_str().map(String::from),
        target1: e.target_bone_name1.to_str().map(String::from),
        target2: e.target_bone_name2.to_str().map(String::from),
    }
}

/// Relies on ssbh_lib::formats::hlpb::OrientConstraint's field layout; the
/// four bone names convert in stored order, and the range vector
/// components render in their display form.
#[verifier::external_body]
fn conv_orient(e: &ssbh_lib::formats::hlpb::OrientConstraint) -> InterpData {
    InterpData {
        name: e.name.to_str().map(String::from),
        bone: e.parent_bone_name1.to_str().map(String::from),
        root: e.parent_bone_name2.to_str().map(String::from),
        parent: e.source_bone_name.to_str().map(String::from),
        driver: e.target_bone_name.to_str().map(String::from),
        min: (format!("{}", e.range_min.x), format!("{}", e.range_min.y), format!("{}", e.range_min.z)),
        max: (format!("{}", e.range_max.x), format!("{}", e.range_max.y), format!("{}", e.range_max.z)),
    }
}

/// Relies on ssbh_lib::SsbhFile::read: parses an SSBH container, `Ok`
/// exactly on well-formed containers, and hands the decoded format to the
/// converter for its kind; a kind without a report template becomes
/// `Other`.
#[verifier::external_body]
fn decode_ssbh(contents: &[u8]) -> (r: Option<SsbhData>)
    ensures
        r == ssbh_data_of(contents@),
{
    match ssbh_lib::SsbhFile::read(&mut std::io::Cursor::new(contents)) {
        Err(_) => None,
        Ok(f) => Some(match f.data {
            ssbh_lib::Ssbh::Anim(v) => conv_anim(&v.data),
            ssbh_lib::Ssbh::Skel(v) => conv_skel(&v.data),
            ssbh_lib::Ssbh::Mesh(v) => conv_mesh(&v.data),
            ssbh_lib::Ssbh::Matl(v) => conv_matl(&v.data),
            ssbh_lib::Ssbh::Modl(v) => conv_modl(&v.data),
            ssbh_lib::Ssbh::Hlpb(v) => conv_hlpb(&v.data),
            _ => SsbhData::Other,
        }),
    }
}

/// What std's debug formatting of a string says: the string quoted and
/// escaped; a fixed function of the characters alone.
pub uninterp spec fn debug_str_of(s: Seq<char>) -> Seq<char>;

/// Relies on std's Debug impl for str: the quoted, escaped form of the
/// string, a fixed function of its characters.
#[verifier::external_body]
pub(crate) fn debug_quote(s: &str) -> (r: String)
    ensures
        r@ == debug_str_of(s@),
{
    format!("{:?}", s)
}

/// The displayed form of an optional name: the name itself, or the
/// fallback when it is absent.
pub open spec fn spec_name_or(o: Option<String>, fallback: Seq<char>) -> Seq<char> {
    match o {
        Some(s) => s@,
        None => fallback,
    }
}

/// Renders an optional name, substituting `fallback` when it is absent.
pub fn name_or(o: &Option<String>, fallback: &str) -> (r: String)
    ensures
        r@ == spec_name_or(*o, fallback@),
{
    match o {
        Some(s) => s.clone(),
        None => fallback.to_owned(),
    }
}

/// Renders an optional name in debug (quoted) form, substituting
/// `fallback` when it is absent.
pub fn debug_name(o: &Option<String>, fallback: &str) -> (r: String)
    ensures
        r@ == debug_str_of(spec_name_or(*o, fallback@)),
{
    match o {
        Some(s) => debug_quote(s.as_str()),
        None => debug_quote(fallback),
    }
}

/// The `major.minor` version text.
pub open spec fn spec_version(major: u16, minor: u16) -> Seq<char> {
    spec_digits(major as nat) + "."@ + spec_digits(minor as nat)
}

/// Renders the `major.minor` version text.
pub fn version_text(major: u16, minor: u16) -> (r: String)
    ensures
        r@ == spec_version(major, minor),
{
    let mut s = u64_string(major as u64);
    s.append(".");
    let m = u64_string(minor as u64);
    s.append(m.as_str());
    assert(s@ =~= spec_version(major, minor));
    s
}


/// The bone (or mesh) name lines: one `"- name"` line per present name,
/// joined by newlines; entries whose name could not be decoded are
/// skipped. `first` says whether no line has been emitted yet.
pub open spec fn spec_dash_lines(names: Seq<Option<String>>, i: int, first: bool) -> Seq<char>
    decreases names.len() - i,
{
    if 0 <= i < names.len() {
        match names[i] {
            Some(nm) => (if first {
                Seq::<char>::empty()
            } else {
                "\n"@
            }) + "- "@ + nm@ + spec_dash_lines(names, i + 1, false),
            None => spec_dash_lines(names, i + 1, first),
        }
    } else {
        Seq::empty()
    }
}

/// Renders the skeleton's bone name lines.
pub fn bone_list(bones: &Vec<Option<String>>) -> (r: String)
    ensures
        r@ == spec_dash_lines(bones@, 0, true),
{
    let mut s = String::new();
    let mut first: bool = true;
    let n = bones.len();
    let mut i: usize = 0;
    while i < n
        invariant
            i <= n,
            n == bones@.len(),
            spec_dash_lines(bones@, 0, true) == s@ + spec_dash_lines(bones@, i as int, first),
        decreases n - i,
    {
        match &bones[i] {
            Some(nm) => {
                if !first {
                    s.append("\n");
                }
                s.append("- ");
                s.append(nm.as_str());
                first = false;
            },
            None => {},
        }
        proof {
            assert(spec_dash_lines(bones@, 0, true) =~= s@ + spec_dash_lines(
                bones@,
                i + 1,
                first,
            ));
        }
        i = i + 1;
    }
    s
}

/// The mesh object name view of the object list.
pub open spec fn spec_object_names(objects: Seq<(Option<String>, u32)>) -> Seq<Option<String>> {
    objects.map_values(|o: (Option<String>, u32)| o.0)
}

/// Renders the mesh object name lines.
pub fn mesh_list(objects: &Vec<(Option<String>, u32)>) -> (r: String)
    ensures
        r@ == spec_dash_lines(spec_object_names(objects@), 0, true),
{
    let mut names: Vec<Option<String>> = Vec::new();
    let n = objects.len();
    let mut i: usize = 0;
    while i < n
        invariant
            i <= n,
            n == objects@.len(),
            names@ == spec_object_names(objects@).take(i as int),
        decreases n - i,
    {
        match &objects[i].0 {
            Some(nm) => names.push(Some(nm.clone())),
            None => names.push(None),
        }
        proof {
            assert(names@ =~= spec_object_names(objects@).take(i + 1));
        }
        i = i + 1;
    }
    proof {
        assert(names@ =~= spec_object_names(objects@));
    }
    bone_list(&names)
}

/// The total vertex count of the mesh objects from position `i` on.
pub open spec fn spec_vert_sum(objects: Seq<(Option<String>, u32)>, i: int) -> int
    decreases objects.len() - i,
{
    if 0 <= i < objects.len() {
        objects[i].1 + spec_vert_sum(objects, i + 1)
    } else {
        0
    }
}

/// Sums the vertex counts of all mesh objects.
pub fn vert_count(objects: &Vec<(Option<String>, u32)>) -> (total: u128)
    ensures
        total as int == spec_vert_sum(objects@, 0),
{
    let mut acc: u128 = 0;
    let n = objects.len();
    let mut i: usize = 0;
    while i < n
        invariant
            i <= n,
            n == objects@.len(),
            acc as int + spec_vert_sum(objects@, i as int) == spec_vert_sum(objects@, 0),
            acc as int <= i as int * 0xffff_ffff,
        decreases n - i,
    {
        proof {
            assert(i as int * 0xffff_ffff + 0xffff_ffff == (i as int + 1) * 0xffff_ffff)
                by (nonlinear_arith);
            assert((i as int + 1) * 0xffff_ffff <= (usize::MAX as int) * 0xffff_ffff)
                by (nonlinear_arith)
                requires
                    i as int + 1 <= usize::MAX as int,
            ;
        }
        acc = acc + objects[i].1 as u128;
        i = i + 1;
    }
    acc
}

/// The material file name lines: one `"    - name"` line per present name
/// in debug form, joined by newlines; absent names are skipped.
pub open spec fn spec_file_lines(names: Seq<Option<String>>, i: int, first: bool) -> Seq<char>
    decreases names.len() - i,
{
    if 0 <= i < names.len() {
        match names[i] {
            Some(nm) => (if first {
                Seq::<char>::empty()
            } else {
                "\n"@
            }) + "    - "@ + debug_str_of(nm@) + spec_file_lines(names, i + 1, false),
            None => spec_file_lines(names, i + 1, first),
        }
    } else {
        Seq::empty()
    }
}

/// Renders the model's material file name lines.
pub fn str_list(names: &Vec<Option<String>>) -> (r: String)
    ensures
        r@ == spec_file_lines(names@, 0, true),
{
    let mut s = String::new();
    let mut first: bool = true;
    let n = names.len();
    let mut i: usize = 0;
    while i < n
        invariant
            i <= n,
            n == names@.len(),
            spec_file_lines(names@, 0, true) == s@ + spec_file_lines(names@, i as int, first),
        decreases n - i,
    {
        match &names[i] {
            Some(nm) => {
                if !first {
                    s.append("\n");
                }
                s.append("    - ");
                let q = debug_quote(nm.as_str());
                s.append(q.as_str());
                first = false;
            },
            None => {},
        }
        proof {
            assert(spec_file_lines(names@, 0, true) =~= s@ + spec_file_lines(
                names@,
                i + 1,
                first,
            ));
        }
        i = i + 1;
    }
    s
}

/// The model entry lines, one per entry in stored order: the mesh object
/// name, its sub-index in brackets, and the material label in debug form.
pub open spec fn spec_modl_lines(
    entries: Seq<(Option<String>, u64, Option<String>)>,
    i: int,
) -> Seq<char>
    decreases entries.len() - i,
{
    if 0 <= i < entries.len() {
        (if i == 0 {
            Seq::<char>::empty()
        } else {
            "\n"@
        }) + "    - "@ + spec_name_or(entries[i].0, "None"@) + "["@ + spec_digits(
            entries[i].1 as nat,
        ) + "]: "@ + debug_str_of(spec_name_or(entries[i].2, "UnknownMaterial"@)) + spec_modl_lines(
            entries,
            i + 1,
        )
    } else {
        Seq::empty()
    }
}

/// Renders the model's entry lines.
pub fn modl_entry_list(entries: &Vec<(Option<String>, u64, Option<String>)>) -> (r: String)
    ensures
        r@ == spec_modl_lines(entries@, 0),
{
    let mut s = String::new();
    let n = entries.len();
    let mut i: usize = 0;
    while i < n
        invariant
            i <= n,
            n == entries@.len(),
            spec_modl_lines(entries@, 0) == s@ + spec_modl_lines(entries@, i as int),
        decreases n - i,
    {
        if i > 0 {
            s.append("\n");
        }
        s.append("    - ");
        let nm = name_or(&entries[i].0, "None");
        s.append(nm.as_str());
        s.append("[");
        let idx = u64_string(entries[i].1);
        s.append(idx.as_str());
        s.append("]: ");
        let lbl = debug_name(&entries[i].2, "UnknownMaterial");
        s.append(lbl.as_str());
        proof {
            assert(spec_modl_lines(entries@, 0) =~= s@ + spec_modl_lines(entries@, i + 1));
        }
        i = i + 1;
    }
    s
}

/// The line for one material attribute: the parameter name, then its value
/// in the display rule for its kind — a decoded boolean shows as `false`
/// for zero, `true` for one, and its number otherwise; a parameter kind
/// without a display form shows as the bare name.
pub open spec fn spec_attr_line(pid: Seq<char>, v: AttrValue) -> Seq<char> {
    "        - "@ + pid + match v {
        AttrValue::Float(x) => ": "@ + x@,
        AttrValue::Boolean(b) => ": "@ + (if b == 0 {
            "false"@
        } else if b == 1 {
            "true"@
        } else {
            spec_digits(b as nat)
        }),
        AttrValue::Vector4(x, y, z, w) => ": ("@ + x@ + ", "@ + y@ + ", "@ + z@ + ", "@ + w@
            + ")"@,
        AttrValue::MatlString(o) => ": "@ + debug_str_of(spec_name_or(o, ""@)),
        AttrValue::Other => Seq::empty(),
    }
}

/// The attribute lines of one material, joined by newlines; attributes
/// whose value data is absent are skipped.
pub open spec fn spec_attr_lines(
    attrs: Seq<(String, Option<AttrValue>)>,
    i: int,
    first: bool,
) -> Seq<char>
    decreases attrs.len() - i,
{
    if 0 <= i < attrs.len() {
        match attrs[i].1 {
            Some(v) => (if first {
                Seq::<char>::empty()
            } else {
                "\n"@
            }) + spec_attr_line(attrs[i].0@, v) + spec_attr_lines(attrs, i + 1, false),
            None => spec_attr_lines(attrs, i + 1, first),
        }
    } else {
        Seq::empty()
    }
}

/// Renders the line for one material attribute.
fn attr_line(pid: &String, v: &AttrValue) -> (r: String)
    ensures
        r@ == spec_attr_line(pid@, *v),
{
    let mut s = "        - ".to_owned();
    s.append(pid.as_str());
    match v {
        AttrValue::Float(x) => {
            s.append(": ");
            s.append(x.as_str());
        },
        AttrValue::Boolean(b) => {
            s.append(": ");
            if *b == 0 {
                s.append("false");
            } else if *b == 1 {
                s.append("true");
            } else {
                let d = u64_string(*b as u64);
                s.append(d.as_str());
            }
        },
        AttrValue::Vector4(x, y, z, w) => {
            s.append(": (");
            s.append(x.as_str());
            s.append(", ");
            s.append(y.as_str());
            s.append(", ");
            s.append(z.as_str());
            s.append(", ");
            s.append(w.as_str());
            s.append(")");
        },
        AttrValue::MatlString(o) => {
            s.append(": ");
            let q = debug_name(o, "");
            s.append(q.as_str());
        },
        AttrValue::Other => {},
    }
    assert(s@ =~= spec_attr_line(pid@, *v));
    s
}

/// Renders one material's attribute lines.
pub fn matl_attr_list(attrs: &Vec<(String, Option<AttrValue>)>) -> (r: String)
    ensures
        r@ == spec_attr_lines(attrs@, 0, true),
{
    let mut s = String::new();
    let mut first: bool = true;
    let n = attrs.len();
    let mut i: usize = 0;
    while i < n
        invariant
            i <= n,
            n == attrs@.len(),
            spec_attr_lines(attrs@, 0, true) == s@ + spec_attr_lines(attrs@, i as int, first),
        decreases n - i,
    {
        match &attrs[i].1 {
            Some(v) => {
                if !first {
                    s.append("\n");
                }
                let line = attr_line(&attrs[i].0, v);
                s.append(line.as_str());
                first = false;
            },
            None => {},
        }
        proof {
            assert(spec_attr_lines(attrs@, 0, true) =~= s@ + spec_attr_lines(
                attrs@,
                i + 1,
                first,
            ));
        }
        i = i + 1;
    }
    s
}

/// The block for one material: its label, its shader, and its attribute
/// lines.
pub open spec fn spec_matl_block(e: MatlEntryData) -> Seq<char> {
    "- "@ + spec_name_or(e.material_label, "UnknownMaterial"@) + "\n    - Shader: "@
        + spec_name_or(e.shader_label, "UnknownShader"@) + "\n    - Attributes:\n"@
        + spec_attr_lines(e.attributes@, 0, true) + "\n"@
}

/// The material blocks from position `i` on, joined by newlines.
pub open spec fn spec_matl_blocks(entries: Seq<MatlEntryData>, i: int) -> Seq<char>
    decreases entries.len() - i,
{
    if 0 <= i < entries.len() {
        (if i == 0 {
            Seq::<char>::empty()
        } else {
            "\n"@
        }) + spec_matl_block(entries[i]) + spec_matl_blocks(entries, i + 1)
    } else {
        Seq::empty()
    }
}

/// Renders the material list.
pub fn matl_list(entries: &Vec<MatlEntryData>) -> (r: String)
    ensures
        r@ == spec_matl_blocks(entries@, 0),
{
    let mut s = String::new();
    let n = entries.len();
    let mut i: usize = 0;
    while i < n
        invariant
            i <= n,
            n == entries@.len(),
            spec_matl_blocks(entries@, 0) == s@ + spec_matl_blocks(entries@, i as int),
        decreases n - i,
    {
        if i > 0 {
            s.append("\n");
        }
        s.append("- ");
        let lbl = name_or(&entries[i].material_label, "UnknownMaterial");
        s.append(lbl.as_str());
        s.append("\n    - Shader: ");
        let sh = name_or(&entries[i].shader_label, "UnknownShader");
        s.append(sh.as_str());
        s.append("\n    - Attributes:\n");
        let attrs = matl_attr_list(&entries[i].attributes);
        s.append(attrs.as_str());
        s.append("\n");
        proof {
            assert(spec_matl_blocks(entries@, 0) =~= s@ + spec_matl_blocks(entries@, i + 1));
        }
        i = i + 1;
    }
    s
}

/// The block for one aim constraint: its name plainly, then the six bone
/// and type names in debug form.
pub open spec fn spec_aim_block(e: AimData) -> Seq<char> {
    "- "@ + spec_name_or(e.name, "None"@) + "\n    - AimBone[0]: "@ + debug_str_of(
        spec_name_or(e.aim1, "None"@),
    ) + "\n    - AimBone[1]: "@ + debug_str_of(spec_name_or(e.aim2, "None"@))
        + "\n    - AimType[0]: "@ + debug_str_of(spec_name_or(e.type1, "None"@))
        + "\n    - AimType[1]: "@ + debug_str_of(spec_name_or(e.type2, "None"@))
        + "\n    - TargetBone[0]: "@ + debug_str_of(spec_name_or(e.target1, "None"@))
        + "\n    - TargetBone[1]: "@ + debug_str_of(spec_name_or(e.target2, "None"@)) + "\n"@
}

/// The aim constraint blocks from position `i` on, joined by newlines.
pub open spec fn spec_aim_blocks(entries: Seq<AimData>, i: int) -> Seq<char>
    decreases entries.len() - i,
{
    if 0 <= i < entries.len() {
        (if i == 0 {
            Seq::<char>::empty()
        } else {
            "\n"@
        }) + spec_aim_block(entries[i]) + spec_aim_blocks(entries, i + 1)
    } else {
        Seq::empty()
    }
}

/// Renders the block for one aim constraint.
fn aim_block(e: &AimData) -> (r: String)
    ensures
        r@ == spec_aim_block(*e),
{
    let mut s = "- ".to_owned();
    let nm = name_or(&e.name, "None");
    s.append(nm.as_str());
    s.append("\n    - AimBone[0]: ");
    let a1 = debug_name(&e.aim1, "None");
    s.append(a1.as_str());
    s.append("\n    - AimBone[1]: ");
    let a2 = debug_name(&e.aim2, "None");
    s.append(a2.as_str());
    s.append("\n    - AimType[0]: ");
    let t1 = debug_name(&e.type1, "None");
    s.append(t1.as_str());
    s.append("\n    - AimType[1]: ");
    let t2 = debug_name(&e.type2, "None");
    s.append(t2.as_str());
    s.append("\n    - TargetBone[0]: ");
    let g1 = debug_name(&e.target1, "None");
    s.append(g1.as_str());
    s.append("\n    - TargetBone[1]: ");
    let g2 = debug_name(&e.target2, "None");
    s.append(g2.as_str());
    s.append("\n");
    assert(s@ =~= spec_aim_block(*e));
    s
}

/// Renders the aim constraint list.
pub fn aim_list(entries: &Vec<AimData>) -> (r: String)
    ensures
        r@ == spec_aim_blocks(entries@, 0),
{
    let mut s = String::new();
    let n = entries.len();
    let mut i: usize = 0;
    while i < n
        invariant
            i <= n,
            n == entries@.len(),
            spec_aim_blocks(entries@, 0) == s@ + spec_aim_blocks(entries@, i as int),
        decreases n - i,
    {
        if i > 0 {
            s.append("\n");
        }
        let block = aim_block(&entries[i]);
        s.append(block.as_str());
        proof {
            assert(spec_aim_blocks(entries@, 0) =~= s@ + spec_aim_blocks(entries@, i + 1));
        }
        i = i + 1;
    }
    s
}

/// The block for one orient (interpolation) constraint: its name plainly,
/// the four bone names in debug form, and the two ranges as component
/// triples.
pub open spec fn spec_interp_block(e: InterpData) -> Seq<char> {
    "- "@ + spec_name_or(e.name, "None"@) + "\n    - Bone: "@ + debug_str_of(
        spec_name_or(e.bone, "None"@),
    ) + "\n    - Root Bone: "@ + debug_str_of(spec_name_or(e.root, "None"@))
        + "\n    - Parent Bone: "@ + debug_str_of(spec_name_or(e.parent, "None"@))
        + "\n    - Driver Bone: "@ + debug_str_of(spec_name_or(e.driver, "None"@))
        + "\n    - Minimum Range: ("@ + e.min.0@ + ", "@ + e.min.1@ + ", "@ + e.min.2@
        + ")\n    - Maximum Range: ("@ + e.max.0@ + ", "@ + e.max.1@ + ", "@ + e.max.2@
        + ")\n"@
}

/// The orient constraint blocks from position `i` on, joined by newlines.
pub open spec fn spec_interp_blocks(entries: Seq<InterpData>, i: int) -> Seq<char>
    decreases entries.len() - i,
{
    if 0 <= i < entries.len() {
        (if i == 0 {
            Seq::<char>::empty()
        } else {
            "\n"@
        }) + spec_interp_block(entries[i]) + spec_interp_blocks(entries, i + 1)
    } else {
        Seq::empty()
    }
}

/// Renders the block for one orient (interpolation) constraint.
fn interp_block(e: &InterpData) -> (r: String)
    ensures
        r@ == spec_interp_block(*e),
{
    let mut s = "- ".to_owned();
    let nm = name_or(&e.name, "None");
    s.append(nm.as_str());
    s.append("\n    - Bone: ");
    let b = debug_name(&e.bone, "None");
    s.append(b.as_str());
    s.append("\n    - Root Bone: ");
    let rt = debug_name(&e.root, "None");
    s.append(rt.as_str());
    s.append("\n    - Parent Bone: ");
    let pa = debug_name(&e.parent, "None");
    s.append(pa.as_str());
    s.append("\n    - Driver Bone: ");
    let dr = debug_name(&e.driver, "None");
    s.append(dr.as_str());
    s.append("\n    - Minimum Range: (");
    s.append(e.min.0.as_str());
    s.append(", ");
    s.append(e.min.1.as_str());
    s.append(", ");
    s.append(e.min.2.as_str());
    s.append(")\n    - Maximum Range: (");
    s.append(e.max.0.as_str());
    s.append(", ");
    s.append(e.max.1.as_str());
    s.append(", ");
    s.append(e.max.2.as_str());
    s.append(")\n");
    assert(s@ =~= spec_interp_block(*e));
    s
}

/// Renders the orient (interpolation) constraint list.
pub fn interpolation_list(entries: &Vec<InterpData>) -> (r: String)
    ensures
        r@ == spec_interp_blocks(entries@, 0),
{
    let mut s = String::new();
    let n = entries.len();
    let mut i: usize = 0;
    while i < n
        invariant
            i <= n,
            n == entries@.len(),
            spec_interp_blocks(entries@, 0) == s@ + spec_interp_blocks(entries@, i as int),
        decreases n - i,
    {
        if i > 0 {
            s.append("\n");
        }
        let block = interp_block(&entries[i]);
        s.append(block.as_str());
        proof {
            assert(spec_interp_blocks(entries@, 0) =~= s@ + spec_interp_blocks(entries@, i + 1));
        }
        i = i + 1;
    }
    s
}

/// What an SSBH report says for each decode outcome: the fixed fallback
/// line when the decoder rejects the buffer, the bare family line for a
/// member without a template, and otherwise the member's template filled
/// from the decoded data.
pub open spec fn spec_ssbh_report(d: Option<SsbhData>) -> Seq<char> {
    match d {
        None => "No file info"@,
        Some(data) => match data {
            SsbhData::Anim { major, minor, name, group_count, final_frame } => {
                "Namco Animation File v"@ + spec_version(major, minor) + "\n\nName: "@
                    + debug_str_of(spec_name_or(name, "None"@)) + "\nAnimations: "@ + spec_digits(
                    group_count as nat,
                ) + "\nFrame count: "@ + final_frame@ + "\n"@
            },
            SsbhData::Skel { major, minor, bones } => {
                "Namco Skeleton File v"@ + spec_version(major, minor) + "\n\nBone count: "@
                    + spec_digits(bones@.len()) + "\n\nBones:\n"@ + spec_dash_lines(
                    bones@,
                    0,
                    true,
                ) + "\n"@
            },
            SsbhData::Mesh { major, minor, model_name, objects } => {
                "Namco Mesh File v"@ + spec_version(major, minor) + "\n\nMesh name: "@
                    + spec_name_or(model_name, "None"@) + "\nObject count: "@ + spec_digits(
                    objects@.len(),
                ) + "\nVertex count: "@ + spec_digits(spec_vert_sum(objects@, 0) as nat)
                    + "\n\nMesh Objects:\n"@ + spec_dash_lines(
                    spec_object_names(objects@),
                    0,
                    true,
                ) + "\n"@
            },
            SsbhData::Matl { major, minor, entries } => {
                "Namco Material Parameter File v"@ + spec_version(major, minor)
                    + "\n\nMaterials ("@ + spec_digits(entries@.len()) + "):\n"@
                    + spec_matl_blocks(entries@, 0) + "\n"@
            },
            SsbhData::Modl {
                major,
                minor,
                model_name,
                skeleton_file_name,
                animation_file_name,
                mesh_file_name,
                material_file_names,
                entries,
            } => {
                "Namco Model File v"@ + spec_version(major, minor) + "\n\nModel: "@
                    + debug_str_of(spec_name_or(model_name, "None"@)) + "\nSkeleton File: "@
                    + debug_str_of(spec_name_or(skeleton_file_name, "None"@))
                    + "\nAnimation File: "@ + debug_str_of(
                    spec_name_or(animation_file_name, "None"@),
                ) + "\nMesh File: "@ + debug_str_of(spec_name_or(mesh_file_name, "None"@))
                    + "\n\nMaterial Files:\n"@ + spec_file_lines(material_file_names@, 0, true)
                    + "\n\nEntries:\n"@ + spec_modl_lines(entries@, 0) + "\n"@
            },
            SsbhData::Hlpb { major, minor, aim_entries, interpolation_entries } => {
                "Namco Helper Bone File v"@ + spec_version(major, minor)
                    + "\n\nRotate Aim Entries: "@ + spec_digits(aim_entries@.len())
                    + "\nRotate Interpolation Entries: "@ + spec_digits(
                    interpolation_entries@.len(),
                ) + "\n\nRotate Aim Entries:\n"@ + spec_aim_blocks(aim_entries@, 0)
                    + "\n\nRotate Interpolation Entries:\n"@ + spec_interp_blocks(
                    interpolation_entries@,
                    0,
                ) + "\n"@
            },
            SsbhData::Other => "SSBH File"@,
        },
    }
}

/// A buffer the decoder rejects yields exactly the fixed fallback report.
pub proof fn lemma_ssbh_decode_failure_fallback()
    ensures
        spec_ssbh_report(None) == "No file info"@,
{
}

/// Composes the report for a decode outcome, template by template.
#[verifier::rlimit(100)]
pub fn info_from_data(d: &Option<SsbhData>) -> (r: String)
    ensures
        r@ == spec_ssbh_report(*d),
{
    match d {
        None => "No file info".to_owned(),
        Some(data) => match data {
            SsbhData::Anim { major, minor, name, group_count, final_frame } => {
                let mut s = "Namco Animation File v".to_owned();
                let v = version_text(*major, *minor);
                s.append(v.as_str());
                s.append("\n\nName: ");
                let nm = debug_name(name, "None");
                s.append(nm.as_str());
                s.append("\nAnimations: ");
                let c = crate::text::usize_string(*group_count);
                s.append(c.as_str());
                s.append("\nFrame count: ");
                s.append(final_frame.as_str());
                s.append("\n");
                assert(s@ =~= spec_ssbh_report(*d));
                s
            },
            SsbhData::Skel { major, minor, bones } => {
                let mut s = "Namco Skeleton File v".to_owned();
                let v = version_text(*major, *minor);
                s.append(v.as_str());
                s.append("\n\nBone count: ");
                let c = crate::text::usize_string(bones.len());
                s.append(c.as_str());
                s.append("\n\nBones:\n");
                let body = bone_list(bones);
                s.append(body.as_str());
                s.append("\n");
                assert(s@ =~= spec_ssbh_report(*d));
                s
            },
            SsbhData::Mesh { major, minor, model_name, objects } => {
                let mut s = "Namco Mesh File v".to_owned();
                let v = version_text(*major, *minor);
                s.append(v.as_str());
                s.append("\n\nMesh name: ");
                let nm = name_or(model_name, "None");
                s.append(nm.as_str());
                s.append("\nObject count: ");
                let c = crate::text::usize_string(objects.len());
                s.append(c.as_str());
                s.append("\nVertex count: ");
                let total = vert_count(objects);
                let t = u128_string(total);
                s.append(t.as_str());
                s.append("\n\nMesh Objects:\n");
                let body = mesh_list(objects);
                s.append(body.as_str());
                s.append("\n");
                assert(s@ =~= spec_ssbh_report(*d));
                s
            },
            SsbhData::Matl { major, minor, entries } => {
                let mut s = "Namco Material Parameter File v".to_owned();
                let v = version_text(*major, *minor);
                s.append(v.as_str());
                s.append("\n\nMaterials (");
                let c = crate::text::usize_string(entries.len());
                s.append(c.as_str());
                s.append("):\n");
                let body = matl_list(entries);
                s.append(body.as_str());
                s.append("\n");
                assert(s@ =~= spec_ssbh_report(*d));
                s
            },
            SsbhData::Modl {
                major,
                minor,
                model_name,
                skeleton_file_name,
                animation_file_name,
                mesh_file_name,
                material_file_names,
                entries,
            } => {
                let mut s = "Namco Model File v".to_owned();
                let v = version_text(*major, *minor);
                s.append(v.as_str());
                s.append("\n\nModel: ");
                let m = debug_name(model_name, "None");
                s.append(m.as_str());
                s.append("\nSkeleton File: ");
                let sk = debug_name(skeleton_file_name, "None");
                s.append(sk.as_str());
                s.append("\nAnimation File: ");
                let an = debug_name(animation_file_name, "None");
                s.append(an.as_str());
                s.append("\nMesh File: ");
                let me = debug_name(mesh_file_name, "None");
                s.append(me.as_str());
                s.append("\n\nMaterial Files:\n");
                let files = str_list(material_file_names);
                s.append(files.as_str());
                s.append("\n\nEntries:\n");
                let body = modl_entry_list(entries);
                s.append(body.as_str());
                s.append("\n");
                assert(s@ =~= spec_ssbh_report(*d));
                s
            },
            SsbhData::Hlpb { major, minor, aim_entries, interpolation_entries } => {
                let mut s = "Namco Helper Bone File v".to_owned();
                let v = version_text(*major, *minor);
                s.append(v.as_str());
                s.append("\n\nRotate Aim Entries: ");
                let ca = crate::text::usize_string(aim_entries.len());
                s.append(ca.as_str());
                s.append("\nRotate Interpolation Entries: ");
                let ci = crate::text::usize_string(interpolation_entries.len());
                s.append(ci.as_str());
                s.append("\n\nRotate Aim Entries:\n");
                let aims = aim_list(aim_entries);
                s.append(aims.as_str());
                s.append("\n\nRotate Interpolation Entries:\n");
                let interps = interpolation_list(interpolation_entries);
                s.append(interps.as_str());
                s.append("\n");
                assert(s@ =~= spec_ssbh_report(*d));
                s
            },
            SsbhData::Other => "SSBH File".to_owned(),
        },
    }
}

/// Builds the SSBH report for a raw buffer: the decoder's outcome for
/// these bytes, composed by `info_from_data`.
pub fn info(contents: &[u8]) -> (r: String)
    ensures
        r@ == spec_ssbh_report(ssbh_data_of(contents@)),
{
    let d = decode_ssbh(contents);
    info_from_data(&d)
}

} // verus!
