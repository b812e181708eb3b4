use prc::hash40::Hash40;
use prc::{ParamKind, ParamList, ParamStruct};
use smush_file::FileType;
use ssbh_lib::formats::skel::{BillboardType, Skel, SkelBoneEntry, SkelEntryFlags};
use ssbh_lib::SsbhArray;
use std::io::Cursor;

fn bone(name: &str, index: u16) -> SkelBoneEntry {
    SkelBoneEntry {
        name: name.into(),
        index,
        parent_index: -1,
        flags: SkelEntryFlags { unk1: 1, billboard_type: BillboardType::Disabled },
    }
}

fn skeleton_bytes(names: &[&str]) -> Vec<u8> {
    let entries: Vec<SkelBoneEntry> =
        names.iter().enumerate().map(|(i, n)| bone(n, i as u16)).collect();
    let skel = Skel::V10 {
        bone_entries: entries.into(),
        world_transforms: SsbhArray::new(),
        inv_world_transforms: SsbhArray::new(),
        transforms: SsbhArray::new(),
        inv_transforms: SsbhArray::new(),
    };
    let mut cursor = Cursor::new(Vec::new());
    skel.write(&mut cursor).unwrap();
    cursor.into_inner()
}

#[test]
fn skeleton_report_counts_and_names_bones_in_decoded_order() {
    let bytes = skeleton_bytes(&["bone1", "bone2", "bone3"]);
    let report = smush_file::ssbh::info(&bytes);
    assert!(report.contains("Bone count: 3"));
    assert!(report.contains("- bone1\n- bone2\n- bone3"));
    assert_eq!(
        report,
        "Namco Skeleton File v1.0\n\nBone count: 3\n\nBones:\n- bone1\n- bone2\n- bone3\n"
    );
    // The same report comes through the dispatcher, whether the tag is
    // given directly or resolved from a skeleton filename extension.
    assert_eq!(smush_file::get_from_file_type(&bytes, FileType::Ssbh), report);
    assert_eq!(smush_file::get_from_extension(&bytes, "nusktb"), report);
}

// Containers written by the decoder family begin with the byte-reversed
// form of the tag, so content classification of the family goes by the
// forward signature while decoding accepts the container's own header;
// the two halves are exercised separately.
#[test]
fn ssbh_start_signature_classifies_as_ssbh() {
    assert!(matches!(FileType::from_magic(b"SSBH and anything after"), FileType::Ssbh));
}

#[test]
fn ssbh_decode_failure_reports_the_fixed_fallback() {
    assert_eq!(smush_file::ssbh::info(b"SSBH but not a real container"), "No file info");
    assert_eq!(smush_file::ssbh::info(b""), "No file info");
}

#[test]
fn param_report_renders_the_decoded_tree() {
    let ps = ParamStruct(vec![
        (Hash40(0x42), ParamKind::U8(5)),
        (
            Hash40(7),
            ParamKind::List(ParamList(vec![
                ParamKind::I32(-3),
                ParamKind::Struct(ParamStruct(vec![(Hash40(1), ParamKind::Bool(true))])),
            ])),
        ),
    ]);
    let mut cursor = Cursor::new(Vec::new());
    prc::write_stream(&mut cursor, &ps).unwrap();
    let bytes = cursor.into_inner();
    assert!(matches!(FileType::from_magic(&bytes), FileType::Prc));

    let report = smush_file::param::info(&bytes);
    let expected = "Smash Ultimate Parameter File\n\n- 0x0000000042: 5\n- 0x0000000007:\n    -  -3\n    - 1:\n        - 0x0000000001: true\n";
    assert_eq!(report, expected);
    assert_eq!(smush_file::get_from_magic(&bytes), report);
}

#[test]
fn param_decode_failure_reports_the_bare_title() {
    assert_eq!(
        smush_file::param::info(b"not a parameter file"),
        "Smash Ultimate Parameter File\n\n"
    );
}

#[test]
fn audio_report_lists_contained_files_with_sizes() {
    let file = nus3audio::Nus3audioFile {
        files: vec![
            nus3audio::AudioFile { id: 0, name: "x".to_string(), data: vec![1, 2, 3, 4, 5] },
            nus3audio::AudioFile { id: 12, name: "y".to_string(), data: b"IDSP----".to_vec() },
        ],
    };
    let mut bytes = Vec::new();
    file.write(&mut bytes);
    assert!(matches!(FileType::from_magic(&bytes), FileType::Nus3audio));

    let report = smush_file::audio::info(&bytes);
    assert_eq!(
        report,
        "Namco Audio Container\n\nFiles:\n[ 0] x.bin (5 B)\n[12] y.idsp (8 B)\n"
    );
}

#[test]
fn audio_decode_failure_reports_the_bare_title_block() {
    assert_eq!(
        smush_file::audio::info(b"NUS3 but not a real container"),
        "Namco Audio Container\n\nFiles:\n"
    );
}

#[test]
fn texture_report_shows_footer_fields() {
    let tex = nutexb::NutexbFile {
        data: vec![0u8; 4],
        layer_mipmaps: vec![nutexb::LayerMipmaps { mipmap_sizes: vec![4] }],
        footer: nutexb::NutexbFooter {
            string: "tex1".into(),
            width: 16,
            height: 8,
            depth: 1,
            image_format: nutexb::NutexbFormat::R8G8B8A8Srgb,
            unk2: 0,
            mipmap_count: 1,
            unk3: 0,
            layer_count: 1,
            data_size: 4,
            version: (1, 2),
        },
    };
    let mut cursor = Cursor::new(Vec::new());
    tex.write(&mut cursor).unwrap();
    let bytes = cursor.into_inner();
    assert!(matches!(FileType::from_magic(&bytes), FileType::Nutexb));

    let report = smush_file::texture::info(&bytes);
    assert_eq!(
        report,
        "Namco Texture v1.2\n\nInternal name: \"tex1\"\n\nSize: 16x8\nDepth: 1\nMips: 1\n"
    );
}

#[test]
fn texture_decode_failure_reports_the_bare_title() {
    assert_eq!(smush_file::texture::info(b"nonsense"), "Namco Texture");
}

#[test]
fn formats_without_a_decoder_report_their_fixed_fallback() {
    assert_eq!(smush_file::sli::info(b"SLI\0data"), "Sound Label Info File\n\n");
    assert_eq!(smush_file::csb::info(b"CSB\0data"), "Common Sound Table File\n");
    assert_eq!(smush_file::sqb::info(b"SQB\0data"), "Sound Sequence Data File");
    assert_eq!(
        smush_file::svt::info(b"SVT\0data"),
        "Smash Ultimate Sound Volume Table File\nInvalid svt file"
    );
    assert_eq!(
        smush_file::fnv::info(b"FNV\0data"),
        "Smash Ultimate 'Volume by Fighter Count' File\nInvalid fnv file"
    );
}

#[test]
fn dispatcher_routes_each_tag_to_its_builder() {
    assert_eq!(smush_file::get_from_file_type(b"", FileType::Unsupported), "No info");
    assert_eq!(
        smush_file::get_from_file_type(b"zz", FileType::Sqb),
        "Sound Sequence Data File"
    );
    assert_eq!(
        smush_file::get_from_extension(b"not a texture", "nutexb"),
        "Namco Texture"
    );
}

#[test]
fn parser_aborts_on_malformed_buffers_become_the_fallback() {
    // A parameter header followed by a truncated struct makes the decoder
    // abort internally; the builder still returns the fixed fallback.
    let mut prc_bytes = b"paracobn".to_vec();
    prc_bytes.extend_from_slice(&[0u8; 8]);
    prc_bytes.push(0x0c);
    assert_eq!(smush_file::param::info(&prc_bytes), "Smash Ultimate Parameter File\n\n");
    assert_eq!(smush_file::get_from_magic(&prc_bytes), "Smash Ultimate Parameter File\n\n");

    // An audio magic followed by a zero-length body does the same.
    let audio_bytes = b"NUS3\x00\x00\x00\x00".to_vec();
    assert_eq!(smush_file::audio::info(&audio_bytes), "Namco Audio Container\n\nFiles:\n");
    assert_eq!(smush_file::get_from_magic(&audio_bytes), "Namco Audio Container\n\nFiles:\n");
}
