use foundry::capture::{build_capture_artifact, examinar_estado_matriz, is_big_endian_target, MatrixStatus};

#[test]
fn captured_artifact_has_the_documented_layout() {
    let a = build_capture_artifact(false, 0x0102030405060708, 7, &[0xAA, 0xBB]);
    assert_eq!(a.len(), 33);
    assert_eq!(&a[0..4], b"MATR");
    assert_eq!(a[4], 0x01);
    assert_eq!(&a[5..7], &1u16.to_le_bytes());
    assert_eq!(&a[7..15], &0x0102030405060708u64.to_le_bytes());
    assert_eq!(&a[15..23], &7u64.to_le_bytes());
    assert_eq!(&a[23..31], &2u64.to_le_bytes());
    assert_eq!(&a[31..], &[0xAA, 0xBB]);

    let b = build_capture_artifact(true, 0x0102030405060708, 7, &[]);
    assert_eq!(b.len(), 31);
    assert_eq!(b[4], 0x02);
    assert_eq!(&b[5..7], &1u16.to_be_bytes());
    assert_eq!(&b[7..15], &0x0102030405060708u64.to_be_bytes());
    assert_eq!(&b[23..31], &0u64.to_be_bytes());
}

#[test]
fn captured_artifact_examines_valid() {
    let little = build_capture_artifact(false, 11, 22, &[1, 2, 3]);
    assert!(matches!(examinar_estado_matriz(Some(&little), "little", 11, 22), MatrixStatus::Valid));
    let big = build_capture_artifact(true, 11, 22, &[1, 2, 3]);
    assert!(matches!(examinar_estado_matriz(Some(&big), "big", 11, 22), MatrixStatus::Valid));
}

#[test]
fn changed_source_is_obsolete() {
    let a = build_capture_artifact(false, 11, 22, &[]);
    match examinar_estado_matriz(Some(&a), "little", 12, 22) {
        MatrixStatus::Obsolete(note) => assert_eq!(note, "Código fuente modificado."),
        _ => panic!("expected an obsolete artifact"),
    }
}

#[test]
fn changed_dependencies_are_obsolete() {
    let a = build_capture_artifact(false, 11, 22, &[]);
    match examinar_estado_matriz(Some(&a), "little", 11, 23) {
        MatrixStatus::Obsolete(note) => assert_eq!(note, "Dependencias o Arquitectura alteradas."),
        _ => panic!("expected an obsolete artifact"),
    }
}

#[test]
fn header_read_in_the_wrong_order_is_obsolete() {
    let a = build_capture_artifact(true, 11, 22, &[]);
    assert!(matches!(examinar_estado_matriz(Some(&a), "little", 11, 22), MatrixStatus::Obsolete(_)));
}

#[test]
fn missing_and_damaged_artifacts() {
    assert!(matches!(examinar_estado_matriz(None, "little", 1, 2), MatrixStatus::Missing));
    let short = vec![b'M', b'A', b'T', b'R', 1];
    assert!(matches!(examinar_estado_matriz(Some(&short), "little", 1, 2), MatrixStatus::Corrupted));
    let mut bad = build_capture_artifact(false, 1, 2, &[]);
    bad[0] = b'X';
    assert!(matches!(examinar_estado_matriz(Some(&bad), "little", 1, 2), MatrixStatus::Corrupted));
}

#[test]
fn target_byte_order() {
    assert!(is_big_endian_target("big"));
    assert!(!is_big_endian_target("little"));
    assert!(is_big_endian_target("Little"));
    assert!(is_big_endian_target(""));
}

#[test]
fn artifact_for_a_target_examines_valid_for_it() {
    for endian in ["little", "big"] {
        let a = build_capture_artifact(is_big_endian_target(endian), 3, 4, &[5]);
        assert!(matches!(examinar_estado_matriz(Some(&a), endian, 3, 4), MatrixStatus::Valid));
    }
    let le = build_capture_artifact(is_big_endian_target("little"), 3, 4, &[]);
    assert_eq!(le[4], 0x01);
    assert_eq!(&le[7..15], &3u64.to_le_bytes());
}
