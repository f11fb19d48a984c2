use m5stick::bond_format::{
    storage_range, SecurityLevel, SerializationError, StoredAddr, StoredBondInformation,
    BOND_END, BOND_START,
};

#[test]
fn address_roundtrip() {
    let addr = StoredAddr([0x11, 0x22, 0x33, 0x44, 0x55, 0x66]);
    let mut buffer = [0xaau8; 8];
    assert_eq!(addr.serialize_into(&mut buffer), Ok(6));
    assert_eq!(buffer, [0x11, 0x22, 0x33, 0x44, 0x55, 0x66, 0xaa, 0xaa]);
    let (back, used) = StoredAddr::deserialize_from(&buffer).unwrap();
    assert_eq!(back, addr);
    assert_eq!(used, 6);
}

#[test]
fn address_buffer_too_small() {
    let addr = StoredAddr([1, 2, 3, 4, 5, 6]);
    let mut buffer = [9u8; 5];
    assert_eq!(addr.serialize_into(&mut buffer), Err(SerializationError::BufferTooSmall));
    assert_eq!(buffer, [9u8; 5]);
    assert_eq!(StoredAddr::deserialize_from(&buffer), Err(SerializationError::BufferTooSmall));
}

#[test]
fn bond_layout_is_little_endian_key_then_level() {
    let bond = StoredBondInformation {
        ltk: 0x0f0e0d0c0b0a09080706050403020100,
        security_level: SecurityLevel::EncryptedAuthenticated,
    };
    let mut buffer = [0u8; 20];
    assert_eq!(bond.serialize_into(&mut buffer), Ok(17));
    assert_eq!(&buffer[..16], &[0u8, 1, 2, 3, 4, 5, 6, 7, 8, 9, 10, 11, 12, 13, 14, 15]);
    assert_eq!(buffer[16], 2);
    assert_eq!(&buffer[17..], &[0u8, 0, 0]);
    assert_eq!(&buffer[..16], &bond.ltk.to_le_bytes());
}

#[test]
fn bond_roundtrip() {
    for (ltk, level) in [
        (0u128, SecurityLevel::NoEncryption),
        (u128::MAX, SecurityLevel::Encrypted),
        (0x1234_5678_9abc_def0_0fed_cba9_8765_4321, SecurityLevel::EncryptedAuthenticated),
    ] {
        let bond = StoredBondInformation { ltk, security_level: level };
        let mut buffer = [0u8; 32];
        assert_eq!(bond.serialize_into(&mut buffer), Ok(17));
        assert_eq!(StoredBondInformation::deserialize_from(&buffer), Ok(bond));
    }
}

#[test]
fn bond_errors() {
    let bond = StoredBondInformation { ltk: 7, security_level: SecurityLevel::Encrypted };
    let mut small = [0u8; 16];
    assert_eq!(bond.serialize_into(&mut small), Err(SerializationError::BufferTooSmall));
    assert_eq!(StoredBondInformation::deserialize_from(&small), Err(SerializationError::BufferTooSmall));
    let mut bad = [0u8; 17];
    bad[16] = 3;
    assert_eq!(StoredBondInformation::deserialize_from(&bad), Err(SerializationError::InvalidData));
}

#[test]
fn bond_area() {
    let range = storage_range();
    assert_eq!(range, 0x7f0000..0x800000);
    assert_eq!((range.start, range.end), (BOND_START, BOND_END));
}
