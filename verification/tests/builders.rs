use smush_file::ssbh::{
    aim_list, bone_list, interpolation_list, matl_attr_list, matl_list, mesh_list,
    modl_entry_list, str_list, vert_count, AimData, AttrValue, InterpData, MatlEntryData,
};
use smush_file::text::{indent_string, u128_string, u32_pad2_string, u64_string, usize_string};

#[test]
fn decimal_rendering_matches_expected_values() {
    assert_eq!(usize_string(0), "0");
    assert_eq!(usize_string(10), "10");
    assert_eq!(u64_string(9876543210), "9876543210");
    assert_eq!(u128_string(340282366920938463463374607431768211455), "340282366920938463463374607431768211455");
}

#[test]
fn width_two_padding_applies_only_below_ten() {
    assert_eq!(u32_pad2_string(0), " 0");
    assert_eq!(u32_pad2_string(9), " 9");
    assert_eq!(u32_pad2_string(10), "10");
    assert_eq!(u32_pad2_string(123), "123");
}

#[test]
fn indentation_is_four_spaces_per_level() {
    assert_eq!(indent_string(0), "");
    assert_eq!(indent_string(1), "    ");
    assert_eq!(indent_string(3), "            ");
}

#[test]
fn bone_list_skips_undecodable_names() {
    let bones = vec![Some("x".to_string()), None, Some("y".to_string())];
    assert_eq!(bone_list(&bones), "- x\n- y");
    assert_eq!(bone_list(&vec![]), "");
    assert_eq!(bone_list(&vec![None, None]), "");
}

#[test]
fn mesh_list_reads_object_names() {
    let objects = vec![(Some("a".to_string()), 2u32), (None, 3u32), (Some("b".to_string()), 4u32)];
    assert_eq!(mesh_list(&objects), "- a\n- b");
}

#[test]
fn vert_count_sums_all_objects() {
    let objects = vec![(Some("a".to_string()), 2u32), (None, 3u32), (Some("b".to_string()), 4u32)];
    assert_eq!(vert_count(&objects), 9);
    assert_eq!(vert_count(&vec![]), 0);
    let big = vec![(None, u32::MAX), (None, u32::MAX)];
    assert_eq!(vert_count(&big), 2 * (u32::MAX as u128));
}

#[test]
fn str_list_quotes_present_names() {
    let names = vec![Some("m.numatb".to_string()), None];
    assert_eq!(str_list(&names), "    - \"m.numatb\"");
}

#[test]
fn modl_entry_list_substitutes_fixed_placeholders() {
    let entries = vec![
        (Some("obj".to_string()), 2u64, Some("mat".to_string())),
        (None, 7u64, None),
    ];
    assert_eq!(
        modl_entry_list(&entries),
        "    - obj[2]: \"mat\"\n    - None[7]: \"UnknownMaterial\""
    );
}

#[test]
fn attribute_lines_render_booleans_three_ways_and_skip_absent_values() {
    let attrs = vec![
        ("A".to_string(), Some(AttrValue::Boolean(0))),
        ("B".to_string(), Some(AttrValue::Boolean(1))),
        ("C".to_string(), Some(AttrValue::Boolean(5))),
        ("D".to_string(), None),
        ("E".to_string(), Some(AttrValue::Other)),
        ("F".to_string(), Some(AttrValue::MatlString(None))),
    ];
    assert_eq!(
        matl_attr_list(&attrs),
        "        - A: false\n        - B: true\n        - C: 5\n        - E\n        - F: \"\""
    );
}

#[test]
fn matl_list_substitutes_unknown_labels() {
    let entries = vec![MatlEntryData {
        material_label: None,
        shader_label: None,
        attributes: vec![],
    }];
    assert_eq!(
        matl_list(&entries),
        "- UnknownMaterial\n    - Shader: UnknownShader\n    - Attributes:\n\n"
    );
}

#[test]
fn aim_and_interpolation_lists_join_blocks_with_blank_lines() {
    let aim = |n: &str| AimData {
        name: Some(n.to_string()),
        aim1: None,
        aim2: None,
        type1: None,
        type2: None,
        target1: None,
        target2: None,
    };
    let out = aim_list(&vec![aim("a"), aim("b")]);
    assert!(out.starts_with("- a\n"));
    assert!(out.contains("\n\n- b\n"));
    assert!(out.contains("- AimBone[0]: \"None\""));

    let interp = InterpData {
        name: None,
        bone: None,
        root: None,
        parent: None,
        driver: None,
        min: ("0".to_string(), "0".to_string(), "0".to_string()),
        max: ("1".to_string(), "2".to_string(), "3".to_string()),
    };
    let out = interpolation_list(&vec![interp]);
    assert!(out.starts_with("- None\n"));
    assert!(out.contains("- Maximum Range: (1, 2, 3)\n"));
}
