use neli::utils::{U32BitFlag, U32Bitmask};

#[test]
fn bitmask_flags() {
    let m = U32Bitmask::empty();
    assert!(m.is_empty());
    let m = m.with_flag(U32BitFlag::new(1)).with_flag(U32BitFlag::new(32));
    assert!(!m.is_empty());
    assert_eq!(m.bits(), 0x8000_0001);
    assert!(m.is_set(1));
    assert!(m.is_set(32));
    assert!(!m.is_set(2));
    let mut m = m.without_flag(U32BitFlag::new(1));
    assert!(!m.is_set(1));
    m.set(U32BitFlag::new(3));
    assert_eq!(m.bits(), 0x8000_0004);
    m.unset(U32BitFlag::new(32));
    assert_eq!(m.bits(), 4);
    assert_eq!(U32Bitmask::from_bits(6).union(U32Bitmask::from_bits(9)).bits(), 15);
    assert_eq!(U32Bitmask::from_bits(15).difference(U32Bitmask::from_bits(6)).bits(), 9);
}

#[test]
fn bitmask_from_integer_and_any_flag_number() {
    assert_eq!(U32Bitmask::from(5u32).bits(), 5);
    let _ = U32BitFlag::new(0);
    let _ = U32BitFlag::new(40);
}
