use mempool_vortex::uint256::U256;

#[test]
fn from_u128_roundtrips_through_limbs() {
    let x = U256::from_u128(0x1234_5678_9abc_def0_1122_3344_5566_7788);
    assert_eq!(x.w0, 0x1122_3344_5566_7788);
    assert_eq!(x.w1, 0x1234_5678_9abc_def0);
    assert_eq!(x.w2, 0);
    assert_eq!(x.w3, 0);
}

#[test]
fn comparison_follows_value_order() {
    let small = U256::from_u128(41);
    let large = U256::from_u128(42);
    assert!(small.lt(&large));
    assert!(large.gt(&small));
    assert!(small.le(&small));
    assert!(!large.lt(&small));
    let high_limb = U256 { w0: 0, w1: 0, w2: 0, w3: 1 };
    assert!(large.lt(&high_limb));
}

#[test]
fn checked_add_and_sub_are_exact() {
    let a = U256::from_u128(1_000_000_000_000_000_000);
    let b = U256::from_u128(2_000_000_000_000_000_000);
    let sum = a.checked_add(&b).unwrap();
    assert_eq!(sum, U256::from_u128(3_000_000_000_000_000_000));
    let diff = b.checked_sub(&a).unwrap();
    assert_eq!(diff, a);
    assert!(a.checked_sub(&b).is_none());
}

#[test]
fn add_overflow_is_detected() {
    let max = U256 { w0: u64::MAX, w1: u64::MAX, w2: u64::MAX, w3: u64::MAX };
    let one = U256::from_u128(1);
    assert!(max.checked_add(&one).is_none());
    assert!(max.mul_small(2).is_none());
}

#[test]
fn division_uses_integer_semantics() {
    // The boundary the sandwich sizing depends on: 10 / 10 == 1.
    assert_eq!(U256::from_u128(10).div_small(10), U256::from_u128(1));
    assert_eq!(U256::from_u128(19).div_small(10), U256::from_u128(1));
    assert_eq!(U256::from_u128(0).div_small(7), U256::from_u128(0));
    let (q, r) = U256::from_u128(1_000_003).div_rem_small(1000);
    assert_eq!(q, U256::from_u128(1000));
    assert_eq!(r, 3);
}

#[test]
fn mul_small_is_exact() {
    let x = U256::from_u128(2_000_000_000_000_000_000);
    assert_eq!(
        x.mul_small(105).unwrap(),
        U256::from_u128(210_000_000_000_000_000_000)
    );
    assert_eq!(x.mul_small_add(3, 7).unwrap(), U256::from_u128(6_000_000_000_000_000_007));
}

#[test]
fn be_bytes_roundtrip() {
    let x = U256::from_u128(2_000_000_000_000_000_000);
    let bytes = x.to_be_bytes();
    assert_eq!(bytes.len(), 32);
    assert_eq!(&bytes[24..32], &[0x1B, 0xC1, 0x6D, 0x67, 0x4E, 0xC8, 0x00, 0x00]);
    assert!(bytes[..24].iter().all(|&b| b == 0));
    let back = U256::from_be_slice(&bytes, 0);
    assert_eq!(back, x);
}

#[test]
fn from_be_slice_reads_at_offset() {
    let mut buf = vec![0u8; 40];
    buf[39] = 0x2a;
    // The 32-byte word starting at offset 8 ends at byte 39.
    assert_eq!(U256::from_be_slice(&buf, 8), U256::from_u128(42));
}
