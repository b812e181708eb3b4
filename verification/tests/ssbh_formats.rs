use smush_file::FileType;
use ssbh_lib::formats::anim::Anim;
use ssbh_lib::formats::hlpb::{AimConstraint, ConstraintType, Hlpb, OrientConstraint};
use ssbh_lib::formats::matl::{AttributeV16, Matl, MatlEntryV16, ParamId, ParamV16};
use ssbh_lib::formats::modl::{Modl, ModlEntry};
use ssbh_lib::{RelPtr64, SsbhArray, SsbhByteBuffer, SsbhEnum64, Vector3, Vector4};
use std::io::Cursor;

fn write_bytes<T, F: FnOnce(&T, &mut Cursor<Vec<u8>>)>(value: &T, write: F) -> Vec<u8> {
    let mut cursor = Cursor::new(Vec::new());
    write(value, &mut cursor);
    cursor.into_inner()
}

#[test]
fn anim_report_shows_name_group_count_and_final_frame() {
    let anim = Anim::V20 {
        final_frame_index: 10.0,
        unk1: 1,
        unk2: 3,
        name: "run".into(),
        groups: SsbhArray::new(),
        buffer: SsbhByteBuffer::new(),
    };
    let bytes = write_bytes(&anim, |a, c| a.write(c).unwrap());
    let report = smush_file::ssbh::info(&bytes);
    assert_eq!(
        report,
        "Namco Animation File v2.0\n\nName: \"run\"\nAnimations: 0\nFrame count: 10\n"
    );
}

#[test]
fn modl_report_shows_file_names_and_entries() {
    let modl = Modl::V17 {
        model_name: "model".into(),
        skeleton_file_name: "model.nusktb".into(),
        material_file_names: vec!["model.numatb".into()].into(),
        animation_file_name: RelPtr64::null(),
        mesh_file_name: "model.numshb".into(),
        entries: vec![ModlEntry {
            mesh_object_name: "object".into(),
            mesh_object_subindex: 0,
            material_label: "mat1".into(),
        }]
        .into(),
    };
    let bytes = write_bytes(&modl, |m, c| m.write(c).unwrap());
    let report = smush_file::ssbh::info(&bytes);
    let expected = "Namco Model File v1.7\n\nModel: \"model\"\nSkeleton File: \"model.nusktb\"\nAnimation File: \"None\"\nMesh File: \"model.numshb\"\n\nMaterial Files:\n    - \"model.numatb\"\n\nEntries:\n    - object[0]: \"mat1\"\n";
    assert_eq!(report, expected);
    assert_eq!(smush_file::get_from_file_type(&bytes, FileType::Ssbh), report);
}

#[test]
fn matl_report_renders_each_attribute_by_its_kind() {
    let attrs = vec![
        AttributeV16 {
            param_id: ParamId::CustomBoolean1,
            param: SsbhEnum64 { data: RelPtr64::new(ParamV16::Boolean(2)) },
        },
        AttributeV16 {
            param_id: ParamId::CustomFloat8,
            param: SsbhEnum64 { data: RelPtr64::new(ParamV16::Float(1.5)) },
        },
        AttributeV16 {
            param_id: ParamId::CustomVector8,
            param: SsbhEnum64 {
                data: RelPtr64::new(ParamV16::Vector4(Vector4::new(1.0, 2.0, 3.0, 4.0))),
            },
        },
        AttributeV16 {
            param_id: ParamId::Texture4,
            param: SsbhEnum64 { data: RelPtr64::new(ParamV16::String("tex".into())) },
        },
    ];
    let matl = Matl::V16 {
        entries: vec![MatlEntryV16 {
            material_label: "mat1".into(),
            attributes: attrs.into(),
            shader_label: "SFX_x".into(),
        }]
        .into(),
    };
    let bytes = write_bytes(&matl, |m, c| m.write(c).unwrap());
    let report = smush_file::ssbh::info(&bytes);
    let expected = "Namco Material Parameter File v1.6\n\nMaterials (1):\n- mat1\n    - Shader: SFX_x\n    - Attributes:\n        - CustomBoolean1: 2\n        - CustomFloat8: 1.5\n        - CustomVector8: (1, 2, 3, 4)\n        - Texture4: \"tex\"\n\n";
    assert_eq!(report, expected);
}

#[test]
fn hlpb_report_lists_aim_and_interpolation_constraints() {
    let aim = AimConstraint {
        name: "aimC".into(),
        aim_bone_name1: "b1".into(),
        aim_bone_name2: "b2".into(),
        aim_type1: "DEFAULT".into(),
        aim_type2: "DEFAULT".into(),
        target_bone_name1: "t1".into(),
        target_bone_name2: "t2".into(),
        unk1: 0,
        unk2: 1,
        aim: Vector3::new(1.0, 0.0, 0.0),
        up: Vector3::new(0.0, 1.0, 0.0),
        quat1: Vector4::new(0.0, 0.0, 0.0, 1.0),
        quat2: Vector4::new(0.0, 0.0, 0.0, 1.0),
        unk17: 0.0,
        unk18: 0.0,
        unk19: 0.0,
        unk20: 0.0,
        unk21: 0.0,
        unk22: 0.0,
    };
    let orient = OrientConstraint {
        name: "interpC".into(),
        parent_bone_name1: "p1".into(),
        parent_bone_name2: "p2".into(),
        source_bone_name: "src".into(),
        target_bone_name: "dst".into(),
        unk_type: 1,
        constraint_axes: Vector3::new(1.0, 1.0, 1.0),
        quat1: Vector4::new(0.0, 0.0, 0.0, 1.0),
        quat2: Vector4::new(0.0, 0.0, 0.0, 1.0),
        range_min: Vector3::new(-180.0, -180.0, -180.0),
        range_max: Vector3::new(180.0, 180.0, 180.0),
    };
    let hlpb = Hlpb::V11 {
        aim_constraints: vec![aim].into(),
        orient_constraints: vec![orient].into(),
        constraint_indices: vec![0u32, 0u32].into(),
        constraint_types: vec![ConstraintType::Aim, ConstraintType::Orient].into(),
    };
    let bytes = write_bytes(&hlpb, |h, c| h.write(c).unwrap());
    let report = smush_file::ssbh::info(&bytes);
    let expected = "Namco Helper Bone File v1.1\n\nRotate Aim Entries: 1\nRotate Interpolation Entries: 1\n\nRotate Aim Entries:\n- aimC\n    - AimBone[0]: \"b1\"\n    - AimBone[1]: \"b2\"\n    - AimType[0]: \"DEFAULT\"\n    - AimType[1]: \"DEFAULT\"\n    - TargetBone[0]: \"t1\"\n    - TargetBone[1]: \"t2\"\n\n\nRotate Interpolation Entries:\n- interpC\n    - Bone: \"p1\"\n    - Root Bone: \"p2\"\n    - Parent Bone: \"src\"\n    - Driver Bone: \"dst\"\n    - Minimum Range: (-180, -180, -180)\n    - Maximum Range: (180, 180, 180)\n\n";
    assert_eq!(report, expected);
}
