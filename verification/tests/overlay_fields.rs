use litcher::definitions::{
    light_entity_layout, light_entity_vt_layout, light_settings_layout, memory_pool_layout,
    memory_pool_vt_layout, point_light_layout, position_layout, spot_light_layout,
};
use litcher::memory::MemoryImage;
use litcher::overlay::{fits_width, FieldDescriptor, FieldValue, Interpretation, MemoryOverlay};

fn image() -> MemoryImage {
    MemoryImage::new(0x7000, vec![0xEE; 0x40]).unwrap()
}

fn float_bits(field: &FieldDescriptor, image: &MemoryImage, base: usize) -> Option<u64> {
    match field.read(image, base) {
        Some(FieldValue::Float(bits)) => Some(bits),
        _ => None,
    }
}

#[test]
fn unaligned_float_round_trips_bit_for_bit() {
    let mut image = image();
    let field = FieldDescriptor::new("radius", 0x0D, 4, Interpretation::Float);
    for value in [0.0f32, -0.0, 1.0, 2.5, -1234.5678, f32::MIN_POSITIVE, f32::MAX, f32::INFINITY, f32::NAN] {
        let bits = value.to_bits();
        assert!(field.write(&mut image, 0x7000, &FieldValue::Float(bits as u64)));
        let back = float_bits(&field, &image, 0x7000).unwrap();
        assert_eq!(back as u32, bits);
        assert_eq!(f32::from_bits(back as u32).to_bits(), value.to_bits());
    }
}

#[test]
fn double_width_float_round_trips_bit_for_bit() {
    let mut image = image();
    let field = FieldDescriptor::new("wide", 0x03, 8, Interpretation::Float);
    let bits = (-0.1f64).to_bits();
    assert!(field.write(&mut image, 0x7000, &FieldValue::Float(bits)));
    assert_eq!(float_bits(&field, &image, 0x7000), Some(bits));
}

#[test]
fn boolean_at_nonzero_offset_round_trips() {
    let mut image = image();
    let field = FieldDescriptor::new("is_enabled", 0x25, 1, Interpretation::Boolean);
    assert!(field.write(&mut image, 0x7000, &FieldValue::Boolean(true)));
    assert_eq!(image.as_bytes()[0x25], 1);
    assert!(matches!(field.read(&image, 0x7000), Some(FieldValue::Boolean(true))));
    assert!(field.write(&mut image, 0x7000, &FieldValue::Boolean(false)));
    assert_eq!(image.as_bytes()[0x25], 0);
    assert!(matches!(field.read(&image, 0x7000), Some(FieldValue::Boolean(false))));
    assert_eq!(image.as_bytes()[0x24], 0xEE);
    assert_eq!(image.as_bytes()[0x26], 0xEE);
}

#[test]
fn any_nonzero_byte_reads_as_true() {
    let mut image = image();
    let field = FieldDescriptor::new("flag", 3, 1, Interpretation::Boolean);
    assert!(image.write_bytes(0x7003, &[0x80]));
    assert!(matches!(field.read(&image, 0x7000), Some(FieldValue::Boolean(true))));
}

#[test]
fn integer_field_round_trips_and_refuses_what_does_not_fit() {
    let mut image = image();
    let field = FieldDescriptor::new("mode", 0x11, 2, Interpretation::Integer);
    assert!(field.write(&mut image, 0x7000, &FieldValue::Integer(0xBEEF)));
    assert!(matches!(field.read(&image, 0x7000), Some(FieldValue::Integer(0xBEEF))));
    assert_eq!(image.as_bytes()[0x11..0x13], [0xEF, 0xBE]);
    assert!(!field.write(&mut image, 0x7000, &FieldValue::Integer(0x1_0000)));
    assert!(matches!(field.read(&image, 0x7000), Some(FieldValue::Integer(0xBEEF))));
}

#[test]
fn a_value_of_another_interpretation_is_refused() {
    let mut image = image();
    let before = image.as_bytes().to_vec();
    let field = FieldDescriptor::new("mode", 0x10, 4, Interpretation::Integer);
    assert!(!field.write(&mut image, 0x7000, &FieldValue::Float(1)));
    assert!(!field.write(&mut image, 0x7000, &FieldValue::Boolean(true)));
    assert!(!field.write(&mut image, 0x7000, &FieldValue::Blob(vec![0; 4])));
    assert!(!field.write(&mut image, 0x7000, &FieldValue::FunctionPointer(1)));
    assert!(!field.write(&mut image, 0x7000, &FieldValue::NestedOverlay(0x7010)));
    assert_eq!(image.as_bytes(), &before[..]);
}

#[test]
fn function_pointer_round_trips() {
    let mut image = image();
    let field = FieldDescriptor::new("set_flags", 0x18, 8, Interpretation::FunctionPointer);
    assert!(field.write(&mut image, 0x7000, &FieldValue::FunctionPointer(0x7FF6_0000_1234)));
    assert!(matches!(
        field.read(&image, 0x7000),
        Some(FieldValue::FunctionPointer(0x7FF6_0000_1234))
    ));
}

#[test]
fn blob_round_trips_and_must_fill_the_field() {
    let mut image = image();
    let field = FieldDescriptor::new("rot_matrix", 0x05, 6, Interpretation::Blob);
    assert!(field.write(&mut image, 0x7000, &FieldValue::Blob(vec![1, 2, 3, 4, 5, 6])));
    match field.read(&image, 0x7000) {
        Some(FieldValue::Blob(data)) => assert_eq!(data, vec![1, 2, 3, 4, 5, 6]),
        other => panic!("unexpected {:?}", other),
    }
    assert!(!field.write(&mut image, 0x7000, &FieldValue::Blob(vec![1, 2, 3])));
}

#[test]
fn nested_overlay_starts_at_the_fields_address() {
    let mut image = image();
    let field = FieldDescriptor::new("pos", 0x20, 12, Interpretation::NestedOverlay);
    assert!(matches!(field.read(&image, 0x7000), Some(FieldValue::NestedOverlay(0x7020))));
    assert!(!field.write(&mut image, 0x7000, &FieldValue::NestedOverlay(0x7020)));
    let inner = FieldDescriptor::new("y", 4, 4, Interpretation::Float);
    assert!(inner.write(&mut image, 0x7020, &FieldValue::Float(2.0f32.to_bits() as u64)));
    assert_eq!(image.load_u32(0x7024), 2.0f32.to_bits());
}

#[test]
fn field_outside_the_image_is_neither_read_nor_written() {
    let mut image = image();
    let field = FieldDescriptor::new("late", 0x3E, 4, Interpretation::Integer);
    assert!(field.read(&image, 0x7000).is_none());
    assert!(!field.write(&mut image, 0x7000, &FieldValue::Integer(1)));
    let far = FieldDescriptor::new("far", usize::MAX, 4, Interpretation::Integer);
    assert!(far.read(&image, 0x7000).is_none());
}

#[test]
fn width_must_suit_the_interpretation() {
    assert!(FieldDescriptor::new("a", 0, 1, Interpretation::Integer).is_well_formed());
    assert!(FieldDescriptor::new("a", 0, 8, Interpretation::Integer).is_well_formed());
    assert!(!FieldDescriptor::new("a", 0, 0, Interpretation::Integer).is_well_formed());
    assert!(!FieldDescriptor::new("a", 0, 9, Interpretation::Integer).is_well_formed());
    assert!(FieldDescriptor::new("a", 0, 4, Interpretation::Float).is_well_formed());
    assert!(!FieldDescriptor::new("a", 0, 2, Interpretation::Float).is_well_formed());
    assert!(!FieldDescriptor::new("a", 0, 2, Interpretation::Boolean).is_well_formed());
    assert!(!FieldDescriptor::new("a", 0, 4, Interpretation::FunctionPointer).is_well_formed());
    assert!(FieldDescriptor::new("a", 0, 0, Interpretation::Blob).is_well_formed());
    let image = image();
    assert!(FieldDescriptor::new("a", 0, 2, Interpretation::Float).read(&image, 0x7000).is_none());
}

#[test]
fn fits_width_compares_with_the_power() {
    assert!(fits_width(0, 0));
    assert!(!fits_width(1, 0));
    assert!(fits_width(255, 1));
    assert!(!fits_width(256, 1));
    assert!(fits_width(0xFFFF_FFFF, 4));
    assert!(!fits_width(0x1_0000_0000, 4));
    assert!(fits_width(u64::MAX, 8));
    assert!(fits_width(u64::MAX, 100));
}

#[test]
fn writing_one_field_leaves_the_others() {
    let mut image = image();
    let overlay = MemoryOverlay {
        name: "Sample",
        fields: vec![
            FieldDescriptor::new("a", 1, 4, Interpretation::Float),
            FieldDescriptor::new("b", 5, 1, Interpretation::Boolean),
            FieldDescriptor::new("c", 6, 2, Interpretation::Integer),
        ],
    };
    assert!(overlay.validate());
    assert!(overlay.write_field(&mut image, 0x7000, 0, &FieldValue::Float(1.5f32.to_bits() as u64)));
    assert!(overlay.write_field(&mut image, 0x7000, 2, &FieldValue::Integer(0x1234)));
    assert!(overlay.write_field(&mut image, 0x7000, 1, &FieldValue::Boolean(true)));
    assert!(matches!(
        overlay.read_field(&image, 0x7000, 0),
        Some(FieldValue::Float(bits)) if bits == 1.5f32.to_bits() as u64
    ));
    assert!(matches!(overlay.read_field(&image, 0x7000, 1), Some(FieldValue::Boolean(true))));
    assert!(matches!(overlay.read_field(&image, 0x7000, 2), Some(FieldValue::Integer(0x1234))));
    assert!(overlay.read_field(&image, 0x7000, 3).is_none());
    assert!(!overlay.write_field(&mut image, 0x7000, 3, &FieldValue::Integer(0)));
}

#[test]
fn overlapping_or_unordered_fields_do_not_validate() {
    let overlapping = MemoryOverlay {
        name: "Overlap",
        fields: vec![
            FieldDescriptor::new("a", 0, 4, Interpretation::Integer),
            FieldDescriptor::new("b", 3, 4, Interpretation::Integer),
        ],
    };
    assert!(!overlapping.validate());
    let unordered = MemoryOverlay {
        name: "Unordered",
        fields: vec![
            FieldDescriptor::new("b", 8, 4, Interpretation::Integer),
            FieldDescriptor::new("a", 0, 4, Interpretation::Integer),
        ],
    };
    assert!(!unordered.validate());
    let odd_width = MemoryOverlay {
        name: "Odd",
        fields: vec![FieldDescriptor::new("a", 0, 3, Interpretation::Float)],
    };
    assert!(!odd_width.validate());
    let empty = MemoryOverlay { name: "Empty", fields: Vec::new() };
    assert!(empty.validate());
}

#[test]
fn the_tables_of_the_foreign_structures_are_ordered() {
    for overlay in [
        position_layout(),
        light_settings_layout(),
        light_entity_layout(),
        spot_light_layout(),
        point_light_layout(),
        light_entity_vt_layout(),
        memory_pool_vt_layout(),
        memory_pool_layout(),
    ] {
        assert!(overlay.validate(), "{}", overlay.name);
    }
    let spot = spot_light_layout();
    assert_eq!(spot.fields.len(), 14);
    assert_eq!(spot.fields[2].name, "flags");
    assert_eq!(spot.fields[2].offset, 0x54);
    assert_eq!(spot.fields[2].width, 4);
    assert_eq!(spot.fields[6].name, "is_enabled");
    assert_eq!(spot.fields[6].offset, 0x164);
    assert_eq!(spot.fields[13].name, "softness");
    assert_eq!(spot.fields[13].offset, 0x188);
    let point = point_light_layout();
    assert_eq!(point.fields.len(), 13);
    assert_eq!(point.fields[12].name, "dynamic_shadow_face_mask");
    assert_eq!(point.fields[12].offset, 0x181);
}
