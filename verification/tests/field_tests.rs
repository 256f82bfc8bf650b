use event_sync::field::FieldValue;
use num_traits::ToPrimitive;
use starknet_core::types::Felt;

fn field_of_u64(v: u64) -> FieldValue {
    let mut bytes = vec![0u8; 32];
    bytes[24..32].copy_from_slice(&v.to_be_bytes());
    FieldValue::from_bytes(bytes).unwrap()
}

#[test]
fn from_bytes_refuses_wrong_length() {
    assert!(FieldValue::from_bytes(vec![0u8; 31]).is_none());
    assert!(FieldValue::from_bytes(vec![0u8; 33]).is_none());
    assert!(FieldValue::from_bytes(Vec::new()).is_none());
    assert!(FieldValue::from_bytes(vec![0u8; 32]).is_some());
}

#[test]
fn small_value_reads_as_u8() {
    assert_eq!(field_of_u64(1).to_u8(), Some(1));
    assert_eq!(field_of_u64(255).to_u8(), Some(255));
    assert_eq!(field_of_u64(256).to_u8(), None);
}

#[test]
fn value_reads_as_u64() {
    assert_eq!(field_of_u64(1_700_000_000).to_u64(), Some(1_700_000_000));
    assert_eq!(field_of_u64(u64::MAX).to_u64(), Some(u64::MAX));
    let mut big = vec![0u8; 32];
    big[23] = 1;
    assert_eq!(FieldValue::from_bytes(big).unwrap().to_u64(), None);
}

#[test]
fn fixed_hex_is_prefixed_and_padded() {
    let hex = field_of_u64(0xab).to_fixed_hex();
    assert_eq!(hex.len(), 66);
    assert_eq!(hex, format!("0x{}ab", "0".repeat(62)));
}

#[test]
fn integer_readings_match_the_chain_type() {
    for v in [0u64, 1, 255, 256, 65_535, 1_700_000_000, u64::MAX] {
        let felt = Felt::from(v);
        let field = FieldValue::from_bytes(felt.to_bytes_be().to_vec()).unwrap();
        assert_eq!(field.to_u8(), felt.to_u8());
        assert_eq!(field.to_u64(), felt.to_u64());
    }
}

#[test]
fn large_chain_value_fits_no_integer_reading() {
    let felt = Felt::MAX;
    let field = FieldValue::from_bytes(felt.to_bytes_be().to_vec()).unwrap();
    assert_eq!(field.to_u8(), felt.to_u8());
    assert_eq!(field.to_u64(), felt.to_u64());
    assert_eq!(field.to_u64(), None);
}

#[test]
fn fixed_hex_matches_the_chain_rendering() {
    for v in [0u64, 1, 0xab, 1_700_000_000, u64::MAX] {
        let felt = Felt::from(v);
        let field = FieldValue::from_bytes(felt.to_bytes_be().to_vec()).unwrap();
        assert_eq!(field.to_fixed_hex(), felt.to_fixed_hex_string());
    }
    let felt = Felt::MAX;
    let field = FieldValue::from_bytes(felt.to_bytes_be().to_vec()).unwrap();
    assert_eq!(field.to_fixed_hex(), felt.to_fixed_hex_string());
}
