use htlc::amount::U256;

#[test]
fn zero_is_zero() {
    assert!(U256::zero().is_zero());
    assert!(!U256::from_u128(1).is_zero());
    assert!(!U256 { hi: 1, lo: 0 }.is_zero());
    assert_eq!(U256::from_u128(7), U256 { hi: 0, lo: 7 });
}

#[test]
fn order_looks_at_the_high_limb_first() {
    let small = U256 { hi: 0, lo: u128::MAX };
    let large = U256 { hi: 1, lo: 0 };
    assert!(small.lt(&large));
    assert!(large.gt(&small));
    assert!(large.ge(&small));
    assert!(!small.ge(&large));
    assert!(!large.lt(&large));
    assert!(large.ge(&large));
    assert!(large.same(&large));
    assert!(!large.same(&small));
    assert!(U256::from_u128(3).lt(&U256::from_u128(4)));
    assert!(!U256::from_u128(4).lt(&U256::from_u128(3)));
}

#[test]
fn checked_sub_without_borrow() {
    let a = U256 { hi: 5, lo: 100 };
    let b = U256 { hi: 2, lo: 40 };
    assert_eq!(a.checked_sub(b), Some(U256 { hi: 3, lo: 60 }));
    assert_eq!(a.checked_sub(a), Some(U256::zero()));
}

#[test]
fn checked_sub_borrows_from_the_high_limb() {
    let a = U256 { hi: 1, lo: 0 };
    let b = U256 { hi: 0, lo: 1 };
    assert_eq!(a.checked_sub(b), Some(U256 { hi: 0, lo: u128::MAX }));
    let c = U256 { hi: 7, lo: 5 };
    let d = U256 { hi: 2, lo: 9 };
    assert_eq!(c.checked_sub(d), Some(U256 { hi: 4, lo: u128::MAX - 3 }));
}

#[test]
fn checked_sub_below_zero_is_none() {
    assert_eq!(U256::from_u128(1).checked_sub(U256::from_u128(2)), None);
    assert_eq!(U256 { hi: 1, lo: 0 }.checked_sub(U256 { hi: 1, lo: 1 }), None);
    assert_eq!(U256 { hi: 0, lo: u128::MAX }.checked_sub(U256 { hi: 1, lo: 0 }), None);
}

#[test]
fn checked_add_carries_into_the_high_limb() {
    let a = U256 { hi: 0, lo: u128::MAX };
    assert_eq!(a.checked_add(U256::from_u128(1)), Some(U256 { hi: 1, lo: 0 }));
    assert_eq!(a.checked_add(a), Some(U256 { hi: 1, lo: u128::MAX - 1 }));
    assert_eq!(
        U256 { hi: 3, lo: 4 }.checked_add(U256 { hi: 10, lo: 20 }),
        Some(U256 { hi: 13, lo: 24 })
    );
}

#[test]
fn checked_add_past_256_bits_is_none() {
    let max = U256 { hi: u128::MAX, lo: u128::MAX };
    assert_eq!(max.checked_add(U256::from_u128(1)), None);
    assert_eq!(max.checked_add(U256::zero()), Some(max));
    assert_eq!(U256 { hi: u128::MAX, lo: 0 }.checked_add(U256 { hi: 1, lo: 0 }), None);
    assert_eq!(
        U256 { hi: u128::MAX - 1, lo: u128::MAX }.checked_add(U256::from_u128(1)),
        Some(U256 { hi: u128::MAX, lo: 0 })
    );
}

#[test]
fn sub_then_add_gives_the_minuend_back() {
    let a = U256 { hi: 9, lo: 3 };
    let b = U256 { hi: 2, lo: 8 };
    let d = a.checked_sub(b).unwrap();
    assert_eq!(d.checked_add(b), Some(a));
}

#[test]
fn to_u128_keeps_what_fits() {
    assert_eq!(U256::from_u128(77).to_u128(), Some(77));
    assert_eq!(U256 { hi: 0, lo: u128::MAX }.to_u128(), Some(u128::MAX));
    assert_eq!(U256 { hi: 1, lo: 0 }.to_u128(), None);
    assert_eq!(U256::zero().to_u128(), Some(0));
}
