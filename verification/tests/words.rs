use levm::primitives::{Address, H256, U256};
use levm::utils::{address_to_word, word_to_address};

fn word(limbs: [u64; 4]) -> U256 {
    U256 { l0: limbs[0], l1: limbs[1], l2: limbs[2], l3: limbs[3] }
}

#[test]
fn add_carries_across_limbs() {
    let a = word([u64::MAX, u64::MAX, 0, 0]);
    let sum = a.checked_add(U256::one());
    assert_eq!(sum, Some(word([0, 0, 1, 0])));
}

#[test]
fn add_overflow_is_none() {
    assert_eq!(U256::max_value().checked_add(U256::one()), None);
    assert_eq!(
        U256::max_value().checked_add(U256::zero()),
        Some(U256::max_value())
    );
}

#[test]
fn sub_borrows_across_limbs() {
    let a = word([0, 0, 1, 0]);
    assert_eq!(a.checked_sub(U256::one()), Some(word([u64::MAX, u64::MAX, 0, 0])));
    assert_eq!(U256::zero().checked_sub(U256::one()), None);
    assert_eq!(U256::from_u64(7).checked_sub(U256::from_u64(7)), Some(U256::zero()));
}

#[test]
fn saturating_sub_stops_at_zero() {
    assert_eq!(U256::from_u64(300).saturating_sub(U256::from_u64(256)), U256::from_u64(44));
    assert_eq!(U256::from_u64(100).saturating_sub(U256::from_u64(256)), U256::zero());
}

#[test]
fn mul_gives_the_product() {
    let a = word([0, 1, 0, 0]);
    let b = word([0, 0, 1, 0]);
    assert_eq!(a.checked_mul(b), Some(word([0, 0, 0, 1])));
    assert_eq!(
        U256::from_u64(u64::MAX).checked_mul(U256::from_u64(u64::MAX)),
        Some(word([1, u64::MAX - 1, 0, 0]))
    );
    assert_eq!(U256::from_u64(6).checked_mul(U256::from_u64(7)), Some(U256::from_u64(42)));
}

#[test]
fn mul_overflow_is_none() {
    let a = word([0, 0, 1, 0]);
    assert_eq!(a.checked_mul(a), None);
    assert_eq!(U256::max_value().checked_mul(U256::from_u64(2)), None);
}

#[test]
fn div_rounds_down_and_refuses_zero() {
    assert_eq!(U256::from_u64(7).checked_div(U256::from_u64(2)), Some(U256::from_u64(3)));
    assert_eq!(U256::from_u64(7).checked_div(U256::zero()), None);
    assert_eq!(
        word([0, 0, 0, 1]).checked_div(word([0, 1, 0, 0])),
        Some(word([0, 0, 1, 0]))
    );
}

#[test]
fn comparisons_go_by_value() {
    let small = word([u64::MAX, 0, 0, 0]);
    let large = word([0, 1, 0, 0]);
    assert!(small.lt(&large));
    assert!(small.le(&large));
    assert!(large.gt(&small));
    assert!(large.ge(&small));
    assert!(!large.lt(&large));
    assert!(large.le(&large));
    assert!(large.ge(&large));
    assert!(!large.gt(&large));
    assert!(U256::zero().is_zero());
    assert!(!large.is_zero());
}

#[test]
fn big_endian_bytes_of_a_word() {
    let bytes = U256::from_u64(0x0102).to_big_endian();
    let mut expected = [0u8; 32];
    expected[30] = 1;
    expected[31] = 2;
    assert_eq!(bytes, expected);
    let top = word([0, 0, 0, 0xff00_0000_0000_0000]).to_big_endian();
    assert_eq!(top[0], 0xff);
    assert_eq!(top[1..], [0u8; 31]);
}

#[test]
fn word_of_big_endian_bytes() {
    assert_eq!(U256::from_big_endian(&[1, 0]), U256::from_u64(256));
    assert_eq!(U256::from_big_endian(&[]), U256::zero());
    let mut bytes = [0u8; 32];
    bytes[0] = 0x80;
    assert_eq!(U256::from_big_endian(&bytes), word([0, 0, 0, 0x8000_0000_0000_0000]));
    let round = word([1, 2, 3, 4]);
    assert_eq!(U256::from_big_endian(&round.to_big_endian()), round);
}

#[test]
fn narrowing_a_word() {
    assert_eq!(U256::from_u64(5).to_u64(), Some(5));
    assert_eq!(word([0, 1, 0, 0]).to_u64(), None);
    assert_eq!(U256::from_u64(5).to_usize(), Some(5));
    assert_eq!(word([0, 0, 0, 1]).to_usize(), None);
    assert_eq!(word([0, 0, 0, 1]).to_usize_saturating(), usize::MAX);
    assert_eq!(U256::from_usize(9).to_usize_saturating(), 9);
}

#[test]
fn address_as_word_and_back() {
    let mut bytes = [0u8; 20];
    bytes[0] = 0xde;
    bytes[19] = 0x01;
    let address = Address(bytes);
    let as_word = address_to_word(address);
    assert_eq!(as_word, word([1, 0, 0xde00_0000, 0]));
    assert_eq!(word_to_address(as_word), address);
    // the twelve high bytes of a word do not reach the address
    assert_eq!(word_to_address(word([1, 0, 0xffff_ffff_de00_0000, 7])), address);
}

#[test]
fn address_and_hash_equality() {
    let a = Address::from_slice(&[7u8; 20]);
    let b = Address([7u8; 20]);
    assert_eq!(a, b);
    assert_ne!(a, Address::zero());
    assert_eq!(a.as_bytes(), &[7u8; 20]);
    assert_eq!(H256::zero(), H256([0u8; 32]));
    assert_ne!(H256([1u8; 32]), H256::zero());
    assert_eq!(H256([0xffu8; 32]).to_word(), U256::max_value());
}
