use dec2flt::diy_float::Fp;

#[test]
fn product_is_rounded() {
    let a = Fp { f: 1 << 63, e: -63 };
    let b = Fp { f: 3 << 62, e: -62 };
    let p = a.mul(&b);
    assert_eq!((p.f, p.e), (3 << 61, -61));
    let p = Fp { f: u64::MAX, e: 0 }.mul(&Fp { f: u64::MAX, e: 0 });
    assert_eq!((p.f, p.e), (u64::MAX - 1, 64));
    // the bit below the result is set: the product goes up
    let p = Fp { f: 1 << 63, e: 0 }.mul(&Fp { f: 1, e: 0 });
    assert_eq!((p.f, p.e), (1, 64));
    let p = Fp { f: (1 << 63) - 1, e: 0 }.mul(&Fp { f: 1, e: 0 });
    assert_eq!((p.f, p.e), (0, 64));
    let p = Fp { f: 0x1234_5678_9ABC_DEF0, e: -10 }.mul(&Fp { f: 0xFEDC_BA98_7654_3210, e: 7 });
    let exact = (0x1234_5678_9ABC_DEF0u128 * 0xFEDC_BA98_7654_3210u128 + (1 << 63)) >> 64;
    assert_eq!((p.f as u128, p.e), (exact, 61));
}

#[test]
fn normalize_sets_the_top_bit() {
    let (n, shift) = Fp { f: 1, e: 0 }.normalize();
    assert_eq!((n.f, n.e, shift), (1 << 63, -63, 63));
    let (n, shift) = Fp { f: u64::MAX, e: 5 }.normalize();
    assert_eq!((n.f, n.e, shift), (u64::MAX, 5, 0));
    let (n, shift) = Fp { f: 0, e: 5 }.normalize();
    assert_eq!((n.f, n.e, shift), (0, -58, 63));
    let (n, shift) = Fp { f: 0x00FF_0000_0000_0000, e: 100 }.normalize();
    assert_eq!((n.f, n.e, shift), (0xFF00_0000_0000_0000, 92, 8));
}

#[test]
fn normalize_to_a_shared_exponent() {
    let n = Fp { f: 3, e: 10 }.normalize_to(6);
    assert_eq!((n.f, n.e), (48, 6));
    let n = Fp { f: 3, e: 10 }.normalize_to(10);
    assert_eq!((n.f, n.e), (3, 10));
    let n = Fp { f: 1, e: 0 }.normalize_to(-63);
    assert_eq!((n.f, n.e), (1 << 63, -63));
}
