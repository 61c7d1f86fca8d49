use geometrydash::{
    field_address, read_mem, read_ptr, FieldType, FieldValue, ForeignMemory, GameManager,
    PlayLayer, PlayLayerField, TextError,
};

fn region(base: usize, len: usize) -> ForeignMemory {
    ForeignMemory::new(base, vec![0u8; len]).unwrap()
}

#[test]
fn field_address_adds_offset() {
    assert_eq!(field_address(0x1000, 0x39C), 0x139C);
    assert_eq!(field_address(0x0040_0000, 0x1FB6D0), 0x005F_B6D0);
    assert_eq!(field_address(usize::MAX - 4, 4), usize::MAX);
}

#[test]
fn region_that_wraps_is_refused() {
    assert!(ForeignMemory::new(usize::MAX - 2, vec![0u8; 4]).is_none());
    assert!(ForeignMemory::new(usize::MAX - 4, vec![0u8; 4]).is_some());
    let m = region(0x1000, 16);
    assert_eq!(m.base_address(), 0x1000);
    assert_eq!(m.len(), 16);
}

#[test]
fn contains_checks_both_ends() {
    let m = region(0x1000, 16);
    assert!(m.contains(0x1000, 16));
    assert!(m.contains(0x100F, 1));
    assert!(m.contains(0x1010, 0));
    assert!(!m.contains(0x0FFF, 1));
    assert!(!m.contains(0x100F, 2));
    assert!(!m.contains(0x2000, 0));
}

#[test]
fn integers_are_little_endian() {
    let mut m = region(0x1000, 16);
    m.write_u32(0x1004, 0x1122_3344);
    assert_eq!(read_mem(&m, 0x1004, 4), vec![0x44, 0x33, 0x22, 0x11]);
    assert_eq!(m.read_u32(0x1004), 0x1122_3344);
    m.write_u64(0x1008, 0x0102_0304_0506_0708);
    assert_eq!(m.read_u8(0x1008), 0x08);
    assert_eq!(m.read_u8(0x100F), 0x01);
    assert_eq!(m.read_u64(0x1008), 0x0102_0304_0506_0708);
    let bytes = m.into_bytes();
    assert_eq!(&bytes[4..8], &[0x44, 0x33, 0x22, 0x11]);
}

#[test]
fn pointer_takes_native_width() {
    let mut m = region(0x1000, 16);
    m.write_ptr(0x1000, 0xDEAD_BEEF);
    assert_eq!(read_ptr(&m, 0x1000), 0xDEAD_BEEF);
    assert_eq!(FieldType::Ptr.size(), std::mem::size_of::<usize>());
    assert_eq!(m.read_u8(0x1000), 0xEF);
}

#[test]
fn write_bytes_touches_only_its_range() {
    let mut m = ForeignMemory::new(0x10, vec![9u8; 8]).unwrap();
    m.write_bytes(0x12, &[1, 2, 3]);
    assert_eq!(m.into_bytes(), vec![9, 9, 1, 2, 3, 9, 9, 9]);
}

#[test]
fn bool_field_at_0x39c_reads_back_last_write() {
    let a = 0x4000;
    let mut m = region(a, 0x600);
    let layer = PlayLayer::from_address(a);
    assert_eq!(PlayLayerField::IsDeadRaw.field().offset, 0x39C);
    layer.set(&mut m, PlayLayerField::IsDeadRaw, FieldValue::Bool(true));
    assert_eq!(layer.get(&m, PlayLayerField::IsDeadRaw), FieldValue::Bool(true));
    assert_eq!(m.read_u8(a + 0x39C), 1);
    layer.set(&mut m, PlayLayerField::IsDeadRaw, FieldValue::Bool(false));
    assert_eq!(layer.get(&m, PlayLayerField::IsDeadRaw), FieldValue::Bool(false));
    assert_eq!(m.read_u8(a + 0x39C), 0);
}

#[test]
fn any_nonzero_byte_reads_as_set() {
    let a = 0x4000;
    let mut m = region(a, 0x600);
    m.write_bytes(a + 0x39C, &[0x80]);
    assert!(m.read_bool(a + 0x39C));
    let layer = PlayLayer::from_address(a);
    assert_eq!(layer.get(&m, PlayLayerField::IsDeadRaw), FieldValue::Bool(true));
}

#[test]
fn every_play_layer_field_reads_back_last_write() {
    let a = 0x8000;
    let fields = [
        (PlayLayerField::IsDeadRaw, FieldValue::Bool(true)),
        (PlayLayerField::LevelLength, FieldValue::F32(1234.5f32.to_bits())),
        (PlayLayerField::IsPracticeMode, FieldValue::Bool(true)),
        (PlayLayerField::IsTestMode, FieldValue::Bool(true)),
        (PlayLayerField::CurrentAttempt, FieldValue::Bool(true)),
        (PlayLayerField::Time, FieldValue::F64(87.25f64.to_bits())),
        (PlayLayerField::HasLevelCompleteMenu, FieldValue::Bool(true)),
        (PlayLayerField::HasCompletedLevel, FieldValue::Bool(true)),
        (PlayLayerField::JumpCount, FieldValue::I32(-7)),
        (PlayLayerField::AttemptJumpCount, FieldValue::I32(i32::MAX)),
        (PlayLayerField::LastDeathPercent, FieldValue::I32(i32::MIN)),
        (PlayLayerField::CameraX, FieldValue::F32((-3.0f32).to_bits())),
        (PlayLayerField::CameraY, FieldValue::F32(0.5f32.to_bits())),
        (PlayLayerField::Player1, FieldValue::Ptr(0x1234_5678)),
        (PlayLayerField::Player2, FieldValue::Ptr(0x0BAD_F00D)),
        (PlayLayerField::LevelSettings, FieldValue::Ptr(0x7777)),
    ];
    for (f, v) in fields {
        let mut m = region(a, 0x600);
        let layer = PlayLayer::from_address(a);
        assert_eq!(f.field().ty, v.field_type());
        layer.set(&mut m, f, v);
        assert_eq!(layer.get(&m, f), v);
    }
}

#[test]
fn field_offsets_are_relative_to_the_object() {
    let mut m = region(0x1000, 0x2000);
    let first = PlayLayer::from_address(0x1000);
    let second = PlayLayer::from_address(0x1800);
    first.set(&mut m, PlayLayerField::JumpCount, FieldValue::I32(5));
    second.set(&mut m, PlayLayerField::JumpCount, FieldValue::I32(9));
    assert_eq!(first.get(&m, PlayLayerField::JumpCount), FieldValue::I32(5));
    assert_eq!(second.get(&m, PlayLayerField::JumpCount), FieldValue::I32(9));
    assert_eq!(m.read_u32(0x1000 + 0x4AC), 5);
    assert_eq!(m.read_u32(0x1800 + 0x4AC), 9);
}

#[test]
fn c_string_stops_at_zero() {
    let m = ForeignMemory::new(0x100, b"abc\0def".to_vec()).unwrap();
    assert_eq!(m.read_c_string(0x100), Some(b"abc".to_vec()));
    assert_eq!(m.read_c_string(0x103), Some(Vec::new()));
    assert_eq!(m.read_c_string(0x104), None);
    assert_eq!(m.read_c_string(0x0FF), None);
    assert_eq!(m.read_c_string(0x200), None);
}

fn manager_with_name(name: &[u8]) -> (GameManager, ForeignMemory) {
    let base = 0x1000;
    let mut bytes = vec![0u8; 0x200];
    bytes.extend_from_slice(name);
    let mut m = ForeignMemory::new(base, bytes).unwrap();
    m.write_ptr(base + 0x198, base + 0x200);
    (GameManager::from_address(base), m)
}

#[test]
fn user_name_decodes_utf8() {
    let (gm, m) = manager_with_name("Robtop\u{e9}\0".as_bytes());
    assert_eq!(gm.user_name(&m), Ok(String::from("Robtop\u{e9}")));
}

#[test]
fn user_name_reports_invalid_utf8() {
    let (gm, m) = manager_with_name(&[0x66, 0xFF, 0x6F, 0]);
    assert_eq!(gm.user_name(&m), Err(TextError::InvalidUtf8));
}

#[test]
fn user_name_reports_missing_terminator() {
    let (gm, m) = manager_with_name(b"abc");
    assert_eq!(gm.user_name(&m), Err(TextError::Unterminated));
}

#[test]
fn decode_text_is_not_the_identity() {
    assert_eq!(geometrydash::text::decode_text(vec![0x68, 0x69]), Ok(String::from("hi")));
    assert_eq!(
        geometrydash::text::decode_text(vec![0xED, 0xA0, 0x80]),
        Err(TextError::InvalidUtf8)
    );
}
