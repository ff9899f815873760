use starkli::field::Felt;
use starkli::field::FeltError;

fn felt(hex: &str) -> Felt {
    let digits = hex.trim_start_matches("0x");
    let padded = format!("{:0>64}", digits);
    let mut bytes = [0u8; 32];
    for i in 0..32 {
        bytes[i] = u8::from_str_radix(&padded[2 * i..2 * i + 2], 16).unwrap();
    }
    Felt::from_bytes_be(&bytes).unwrap()
}

const MODULUS_MINUS_ONE: &str =
    "0x0800000000000011000000000000000000000000000000000000000000000000";

#[test]
fn zero_and_one_render_as_64_digits() {
    assert_eq!(
        Felt::zero().to_hex(),
        "0x0000000000000000000000000000000000000000000000000000000000000000"
    );
    assert_eq!(
        Felt::one().to_hex(),
        "0x0000000000000000000000000000000000000000000000000000000000000001"
    );
    assert_eq!(Felt::one().to_hex().len(), 66);
}

#[test]
fn max_is_one_below_the_modulus() {
    assert_eq!(Felt::max().to_hex(), MODULUS_MINUS_ONE);
    assert_eq!(Felt::max(), felt(MODULUS_MINUS_ONE));
}

#[test]
fn from_u64_spells_the_number_in_the_last_bytes() {
    let bytes = Felt::from_u64(0x0102030405060708).to_bytes_be();
    let mut expected = [0u8; 32];
    expected[24..].copy_from_slice(&[1, 2, 3, 4, 5, 6, 7, 8]);
    assert_eq!(bytes, expected);
    assert_eq!(
        Felt::from_u64(u64::MAX).to_hex(),
        "0x000000000000000000000000000000000000000000000000ffffffffffffffff"
    );
}

#[test]
fn from_u32_agrees_with_from_u64() {
    assert_eq!(Felt::from_u32(0), Felt::zero());
    assert_eq!(Felt::from_u32(u32::MAX), Felt::from_u64(0xffff_ffff));
}

#[test]
fn hex_digits_are_lower_case() {
    assert_eq!(
        Felt::from_u64(0xabcdef).to_hex(),
        "0x0000000000000000000000000000000000000000000000000000000000abcdef"
    );
}

#[test]
fn from_bytes_be_accepts_short_input() {
    assert_eq!(Felt::from_bytes_be(&[]), Ok(Felt::zero()));
    assert_eq!(Felt::from_bytes_be(&[1, 0]), Ok(Felt::from_u64(256)));
    assert_eq!(Felt::from_bytes_be(&[0, 0, 7]), Ok(Felt::from_u64(7)));
}

#[test]
fn from_bytes_be_rejects_more_than_32_bytes() {
    assert_eq!(Felt::from_bytes_be(&[0u8; 33]), Err(FeltError::InvalidLength));
}

#[test]
fn from_bytes_be_rejects_the_modulus_and_above() {
    let mut modulus = Felt::max().to_bytes_be();
    assert_eq!(Felt::from_bytes_be(&modulus), Ok(Felt::max()));
    modulus[31] = 1;
    assert_eq!(Felt::from_bytes_be(&modulus), Err(FeltError::OutOfRange));
    assert_eq!(Felt::from_bytes_be(&[0xff; 32]), Err(FeltError::OutOfRange));
}

#[test]
fn to_bytes_be_round_trips() {
    let value = felt("0x041a78e741e5af2fec34b695679bc6891742439f7afb8484ecd7766661ad02bf");
    assert_eq!(Felt::from_bytes_be(&value.to_bytes_be()), Ok(value));
}

#[test]
fn from_bytes_31_is_the_number_the_bytes_spell() {
    let mut bytes = [0u8; 31];
    for i in 0..31 {
        bytes[i] = (i + 1) as u8;
    }
    assert_eq!(
        Felt::from_bytes_31(&bytes).to_hex(),
        "0x000102030405060708090a0b0c0d0e0f101112131415161718191a1b1c1d1e1f"
    );
    assert_eq!(
        Felt::from_bytes_31(&[0xff; 31]).to_hex(),
        "0x00ffffffffffffffffffffffffffffffffffffffffffffffffffffffffffffff"
    );
}

#[test]
fn to_bits_le_starts_with_the_least_significant_bit() {
    let bits = Felt::from_u64(0b1011).to_bits_le();
    assert_eq!(bits.len(), 256);
    assert_eq!(&bits[..5], &[true, true, false, true, false]);
    assert!(bits[5..].iter().all(|bit| !bit));
}

#[test]
fn to_bits_le_of_max_has_the_bits_of_the_modulus_minus_one() {
    let bits = Felt::max().to_bits_le();
    for (i, bit) in bits.iter().enumerate() {
        assert_eq!(*bit, i == 251 || i == 196 || i == 192, "bit {}", i);
    }
}

#[test]
fn from_hex_be_reads_with_and_without_the_marker() {
    assert_eq!(Felt::from_hex_be("0x1f"), Some(Felt::from_u64(31)));
    assert_eq!(Felt::from_hex_be("1F"), Some(Felt::from_u64(31)));
    assert_eq!(Felt::from_hex_be(""), Some(Felt::zero()));
    assert_eq!(Felt::from_hex_be(MODULUS_MINUS_ONE), Some(Felt::max()));
}

#[test]
fn from_hex_be_rejects_what_is_no_element() {
    assert_eq!(Felt::from_hex_be("0xg"), None);
    assert_eq!(Felt::from_hex_be("twelve"), None);
    assert_eq!(
        Felt::from_hex_be("0x0800000000000011000000000000000000000000000000000000000000000001"),
        None
    );
    assert_eq!(Felt::from_hex_be(&"1".repeat(65)), None);
}

#[test]
fn to_hex_round_trips_through_from_hex_be() {
    let value = felt("0x02406943b25942021f213b047c8765e531dddce3b981722f7aeb2ca137e18dbf");
    assert_eq!(Felt::from_hex_be(&value.to_hex()), Some(value));
}

#[test]
fn constants_agree_with_the_field_of_the_outside_crate() {
    use_outside(Felt::zero(), starknet::core::types::FieldElement::ZERO);
    use_outside(Felt::one(), starknet::core::types::FieldElement::ONE);
    use_outside(Felt::max(), starknet::core::types::FieldElement::MAX);
    use_outside(Felt::from_u32(77), starknet::core::types::FieldElement::from(77u32));
    use_outside(
        Felt::from_u64(u64::MAX),
        starknet::core::types::FieldElement::from(u64::MAX),
    );
}

fn use_outside(ours: Felt, theirs: starknet::core::types::FieldElement) {
    assert_eq!(ours.to_bytes_be(), theirs.to_bytes_be());
    assert_eq!(ours.to_hex(), format!("{:#064x}", theirs));
    assert_eq!(ours.to_bits_le(), theirs.to_bits_le());
}
