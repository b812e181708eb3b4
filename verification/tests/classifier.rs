use smush_file::FileType;

#[test]
fn short_buffers_are_unsupported() {
    // Buffers shorter than the four-byte probe width never match a stage.
    assert!(matches!(FileType::from_magic(b""), FileType::Unsupported));
    assert!(matches!(FileType::from_magic(b"N"), FileType::Unsupported));
    assert!(matches!(FileType::from_magic(b"NU"), FileType::Unsupported));
    assert!(matches!(FileType::from_magic(b"NUS"), FileType::Unsupported));
}

#[test]
fn extension_table_maps_every_known_extension() {
    assert!(matches!(FileType::from_extension("nutexb"), FileType::Nutexb));
    for ext in [
        "nuhlpb", "numatb", "numdlb", "nusrcmdlb", "numshb", "nusktb", "nuanmb", "nurpdb",
        "nufxlb", "nushdb",
    ] {
        assert!(matches!(FileType::from_extension(ext), FileType::Ssbh));
    }
    assert!(matches!(FileType::from_extension("prc"), FileType::Prc));
    assert!(matches!(FileType::from_extension("stdat"), FileType::Prc));
    assert!(matches!(FileType::from_extension("stprm"), FileType::Prc));
    assert!(matches!(FileType::from_extension("nus3audio"), FileType::Nus3audio));
    assert!(matches!(FileType::from_extension("sli"), FileType::Sli));
    assert!(matches!(FileType::from_extension("csb"), FileType::Csb));
    assert!(matches!(FileType::from_extension("sqb"), FileType::Sqb));
    assert!(matches!(FileType::from_extension("fnv"), FileType::Fnv));
    assert!(matches!(FileType::from_extension("svt"), FileType::Svt));
}

#[test]
fn unknown_extensions_are_unsupported() {
    assert!(matches!(FileType::from_extension(""), FileType::Unsupported));
    assert!(matches!(FileType::from_extension("xyz"), FileType::Unsupported));
    assert!(matches!(FileType::from_extension("PRC"), FileType::Unsupported));
    assert!(matches!(FileType::from_extension("nutexb "), FileType::Unsupported));
}

#[test]
fn start_signatures_match_at_offset_zero() {
    assert!(matches!(FileType::from_magic(b"NUS3rest"), FileType::Nus3audio));
    assert!(matches!(FileType::from_magic(b"SSBH"), FileType::Ssbh));
    assert!(matches!(FileType::from_magic(b"CSB\0"), FileType::Csb));
    assert!(matches!(FileType::from_magic(b"SLI\0"), FileType::Sli));
    assert!(matches!(FileType::from_magic(b"FNV\0"), FileType::Fnv));
    assert!(matches!(FileType::from_magic(b"SVT\0"), FileType::Svt));
    assert!(matches!(FileType::from_magic(b"SQB\0"), FileType::Sqb));
    assert!(matches!(FileType::from_magic(b"paracobn"), FileType::Prc));
}

#[test]
fn end_signature_matches_eight_bytes_before_the_end() {
    let mut buf = vec![0u8; 16];
    buf[8] = b' ';
    buf[9] = b'X';
    buf[10] = b'E';
    buf[11] = b'T';
    assert!(matches!(FileType::from_magic(&buf), FileType::Nutexb));
    // Seven-byte buffers are too short for the eight-byte stages.
    assert!(matches!(FileType::from_magic(b"parac"), FileType::Unsupported));
}

#[test]
fn first_stage_wins_over_later_stages() {
    // A buffer carrying both the "NUS3" start signature and the " XET"
    // end signature classifies by the earlier stage.
    let mut buf = vec![0u8; 16];
    buf[0] = b'N';
    buf[1] = b'U';
    buf[2] = b'S';
    buf[3] = b'3';
    buf[8] = b' ';
    buf[9] = b'X';
    buf[10] = b'E';
    buf[11] = b'T';
    assert!(matches!(FileType::from_magic(&buf), FileType::Nus3audio));
}

#[test]
fn empty_buffer_and_unknown_extension_give_the_sentinel() {
    // Both classification paths fall through to the fixed sentinel report.
    assert_eq!(smush_file::get_from_extension(b"", "xyz"), "No info");
    assert_eq!(smush_file::get_from_magic(b""), "No info");
}

#[test]
fn default_tag_is_unsupported() {
    assert!(matches!(FileType::default(), FileType::Unsupported));
}
