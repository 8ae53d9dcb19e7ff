use core_8080::instructions::{dcr, inr, inx, ConditionFlagsStatus};
use core_8080::condition_flags::parity;
use core_8080::RegisterPair;

#[test]
fn op_inx() {
    let mut reg = RegisterPair { high: 0xFF, low: 0xFF };
    inx(&mut reg);
    assert_eq!(reg.get_pair(), 0);
}

#[test]
fn pair_is_high_then_low() {
    let mut reg = RegisterPair { high: 0x12, low: 0x34 };
    assert_eq!(reg.get_pair(), 0x1234);
    reg.set_pair(0xBEEF);
    assert_eq!(reg.high, 0xBE);
    assert_eq!(reg.low, 0xEF);
    assert_eq!(reg.get_pair(), 0xBEEF);
}

#[test]
fn parity_counts_set_bits() {
    assert!(parity(0x00));
    assert!(!parity(0x01));
    assert!(parity(0x03));
    assert!(!parity(0x07));
    assert!(parity(0xFF));
    assert!(!parity(0x80));
    assert!(parity(0x06));
    for b in 0..=255u8 {
        assert_eq!(parity(b), b.count_ones() % 2 == 0);
    }
}

#[test]
fn inr_wraps_and_leaves_carry_undefined() {
    let mut v: u8 = 0xFF;
    let status = inr(&mut v);
    assert_eq!(v, 0);
    assert_eq!(status.zero, Some(true));
    assert_eq!(status.sign, Some(false));
    assert_eq!(status.parity, Some(true));
    assert_eq!(status.carry, None);
}

#[test]
fn dcr_wraps_below_zero() {
    let mut v: u8 = 0;
    let status = dcr(&mut v);
    assert_eq!(v, 0xFF);
    assert_eq!(status.zero, Some(false));
    assert_eq!(status.sign, Some(true));
    assert_eq!(status.parity, Some(true));
}

#[test]
fn status_applies_only_defined_flags() {
    let mut flags = core_8080::ConditionFlags::new();
    flags.carry = true;
    let mut status = ConditionFlagsStatus::new();
    status.zero = Some(true);
    status.apply(&mut flags);
    assert!(flags.zero);
    assert!(flags.carry);
    assert!(!flags.sign);
}
