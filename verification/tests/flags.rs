//! Tests of the flag-word operations.

use kinematic2d::bitflags::BitFlags;

#[test]
fn raise_test_and_clear_u8() {
    let mut w: u8 = 0;
    w.set_high(0b0000_0101);
    assert_eq!(w, 0b0000_0101);
    assert!(w.is_high(0b0000_0001));
    assert!(w.is_high(0b0000_0100));
    assert!(w.is_low(0b0000_0010));
    w.set_low(0b0000_0001);
    assert_eq!(w, 0b0000_0100);
    assert!(w.is_low(0b0000_0001));
    assert!(!w.is_high(0b0000_0001));
}

#[test]
fn masks_test_any_bit() {
    let w: u16 = 0b1000_0000_0000_0000;
    assert!(w.is_high(0b1100_0000_0000_0000), "one shared bit is enough");
    assert!(w.is_low(0b0100_0000_0000_0000));
}

#[test]
fn raising_twice_is_raising_once() {
    let mut a: u32 = 0xF0;
    let mut b: u32 = 0xF0;
    a.set_high(0x0C);
    b.set_high(0x0C);
    b.set_high(0x0C);
    assert_eq!(a, b);
    assert_eq!(a, 0xFC);
}

#[test]
fn wide_words() {
    let mut w: u64 = 0;
    w.set_high(1 << 63);
    assert!(w.is_high(1 << 63));
    w.set_low(1 << 63);
    assert_eq!(w, 0);

    let mut v: u128 = 1 << 100;
    assert!(v.is_high(1 << 100));
    v.set_low(!0);
    assert_eq!(v, 0);

    let mut u: usize = 0;
    u.set_high(0b10);
    assert!(u.is_high(0b11));
    assert!(u.is_low(0b01));
}
