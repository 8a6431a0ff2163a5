use ferro_babe::decode::adjust_version_for_rust_asm;
use ferro_babe::{ClassHeader, FerroBabeError};

fn header(major: u16, minor: u16) -> Vec<u8> {
    let mut bytes = vec![0xCA, 0xFE, 0xBA, 0xBE];
    bytes.extend_from_slice(&minor.to_be_bytes());
    bytes.extend_from_slice(&major.to_be_bytes());
    bytes
}

#[test]
fn header_rejects_short_input() {
    assert_eq!(
        ClassHeader::read(&[0xCA, 0xFE]),
        Err(FerroBabeError::InputTooShort { required: 8, actual: 2 })
    );
    assert_eq!(
        ClassHeader::read(&[]),
        Err(FerroBabeError::InputTooShort { required: 8, actual: 0 })
    );
}

#[test]
fn header_rejects_wrong_magic() {
    assert_eq!(
        ClassHeader::read(&[0xDE, 0xAD, 0xBE, 0xEF, 0, 0, 0, 52]),
        Err(FerroBabeError::InvalidMagic { found: 0xDEADBEEF })
    );
}

#[test]
fn header_accepts_versions_45_through_70() {
    assert_eq!(ClassHeader::read(&header(45, 0)), Ok(ClassHeader { minor_version: 0, major_version: 45 }));
    assert_eq!(
        ClassHeader::read(&header(70, 65535)),
        Ok(ClassHeader { minor_version: 65535, major_version: 70 })
    );
    assert_eq!(
        ClassHeader::read(&header(44, 3)),
        Err(FerroBabeError::UnsupportedVersion { major: 44, minor: 3 })
    );
    assert_eq!(
        ClassHeader::read(&header(71, 0)),
        Err(FerroBabeError::UnsupportedVersion { major: 71, minor: 0 })
    );
}

#[test]
fn adjustment_rewrites_only_version_seventy() {
    let mut bytes = header(70, 1);
    bytes.push(9);
    let adjusted = adjust_version_for_rust_asm(&bytes, ClassHeader { minor_version: 1, major_version: 70 });
    assert_eq!(adjusted, vec![0xCA, 0xFE, 0xBA, 0xBE, 0, 1, 0, 69, 9]);
    let bytes = header(69, 1);
    let kept = adjust_version_for_rust_asm(&bytes, ClassHeader { minor_version: 1, major_version: 69 });
    assert_eq!(kept, bytes);
}
