use bincode::Options;
use foundry::mold_runtime::{cast_from_matrix, matrix_payload, payload_for, Endianness, MatrixError};

fn native_is_little() -> bool {
    1u16.to_ne_bytes()[0] == 1
}

fn decode_pair(payload: &[u8]) -> Option<(String, u32)> {
    bincode::options()
        .with_little_endian()
        .with_varint_encoding()
        .deserialize::<(String, u32)>(payload)
        .ok()
}

fn header(mark: u8, version: u16, payload_len: u64, big: bool) -> Vec<u8> {
    let mut m = Vec::new();
    m.extend_from_slice(b"MATR");
    m.push(mark);
    if big {
        m.extend_from_slice(&version.to_be_bytes());
        m.extend_from_slice(&11111u64.to_be_bytes());
        m.extend_from_slice(&22222u64.to_be_bytes());
        m.extend_from_slice(&33333u64.to_be_bytes());
        m.extend_from_slice(&payload_len.to_be_bytes());
    } else {
        m.extend_from_slice(&version.to_le_bytes());
        m.extend_from_slice(&11111u64.to_le_bytes());
        m.extend_from_slice(&22222u64.to_le_bytes());
        m.extend_from_slice(&33333u64.to_le_bytes());
        m.extend_from_slice(&payload_len.to_le_bytes());
    }
    m
}

#[test]
fn validar_reconstitucion_local_posix() {
    let objeto = ("Datos_Congelados_Nativos".to_string(), 1337u32);

    let payload = bincode::options().with_little_endian().serialize(&objeto).unwrap();

    let mut matriz_artesanal = Vec::new();
    matriz_artesanal.extend_from_slice(b"MATR");
    matriz_artesanal.push(0x01);
    matriz_artesanal.extend_from_slice(&1u16.to_le_bytes());
    matriz_artesanal.extend_from_slice(&11111u64.to_le_bytes());
    matriz_artesanal.extend_from_slice(&22222u64.to_le_bytes());
    matriz_artesanal.extend_from_slice(&33333u64.to_le_bytes());
    matriz_artesanal.extend_from_slice(&(payload.len() as u64).to_le_bytes());
    matriz_artesanal.extend_from_slice(&payload);

    let resultado: Result<(String, u32), MatrixError> = cast_from_matrix(&matriz_artesanal, decode_pair);

    assert!(resultado.is_ok(), "El runtime rechazó la matriz local");
    let objeto_fundido = resultado.unwrap();

    assert_eq!(objeto_fundido.0, "Datos_Congelados_Nativos");
    assert_eq!(objeto_fundido.1, 1337);
}

#[test]
fn current_endianness_matches_the_machine() {
    let expected = if native_is_little() { Endianness::Little } else { Endianness::Big };
    assert_eq!(Endianness::current(), expected);
}

#[test]
fn short_matrix_is_corrupted() {
    let m = vec![0u8; 38];
    assert!(matches!(payload_for(&m, Endianness::Little), Err(MatrixError::CorruptedHeader)));
}

#[test]
fn wrong_magic_is_refused() {
    let mut m = header(1, 1, 0, false);
    m[2] = b'X';
    assert!(matches!(payload_for(&m, Endianness::Little), Err(MatrixError::InvalidMagic)));
}

#[test]
fn unknown_mark_is_corrupted() {
    let m = header(7, 1, 0, false);
    assert!(matches!(payload_for(&m, Endianness::Little), Err(MatrixError::CorruptedHeader)));
}

#[test]
fn foreign_byte_order_is_refused() {
    let m = header(2, 1, 0, true);
    assert!(matches!(payload_for(&m, Endianness::Little), Err(MatrixError::EndiannessConflict)));
    let m = header(1, 1, 0, false);
    assert!(matches!(payload_for(&m, Endianness::Big), Err(MatrixError::EndiannessConflict)));
}

#[test]
fn other_version_is_refused() {
    let m = header(1, 2, 0, false);
    assert!(matches!(payload_for(&m, Endianness::Little), Err(MatrixError::UnsupportedVersion(2))));
    let m = header(2, 0x0102, 0, true);
    assert!(matches!(payload_for(&m, Endianness::Big), Err(MatrixError::UnsupportedVersion(0x0102))));
}

#[test]
fn truncated_payload_is_refused() {
    let mut m = header(1, 1, 5, false);
    m.extend_from_slice(&[1, 2, 3, 4]);
    assert!(matches!(payload_for(&m, Endianness::Little), Err(MatrixError::TruncatedPayload)));
    let m = header(1, 1, u64::MAX, false);
    assert!(matches!(payload_for(&m, Endianness::Little), Err(MatrixError::TruncatedPayload)));
}

#[test]
fn payload_is_exactly_the_declared_range() {
    let mut m = header(1, 1, 3, false);
    m.extend_from_slice(&[9, 8, 7, 6, 5]);
    assert_eq!(payload_for(&m, Endianness::Little).unwrap(), &[9, 8, 7]);
    let mut b = header(2, 1, 2, true);
    b.extend_from_slice(&[4, 3, 2]);
    assert_eq!(payload_for(&b, Endianness::Big).unwrap(), &[4, 3]);
    let mut native = header(1, 1, 1, false);
    native.push(42);
    if native_is_little() {
        assert_eq!(matrix_payload(&native).unwrap(), &[42]);
    }
}

#[test]
fn undecodable_payload_fails_deserialization() {
    let mut m = header(1, 1, 1, false);
    m.push(0xff);
    let r = cast_from_matrix(&m, decode_pair);
    if native_is_little() {
        assert!(matches!(r, Err(MatrixError::DeserializationFailed)));
    }
}

#[test]
fn cast_reports_header_errors_before_decoding() {
    let m = vec![1u8, 2, 3];
    let r = cast_from_matrix(&m, |_p: &[u8]| -> Option<u8> { panic!("decode must not run") });
    assert!(matches!(r, Err(MatrixError::CorruptedHeader)));
}
