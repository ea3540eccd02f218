use userspace::regfield::{bit32, bit64, get_bit, get_field32, get_field64, set_bit, set_field32, set_field64};

#[test]
fn set_field_replaces_only_the_field() {
    assert_eq!(set_field32(0xffff_ffff, 4, 0xf, 0x3), 0xffff_ff3f);
    assert_eq!(set_field64(0, 40, 0xff, 0x1ab), 0xab_0000_0000_00);
}

#[test]
fn get_field_reads_after_set() {
    let v = set_field32(0x1234_5678, 8, 0xff, 0x9a);
    assert_eq!(get_field32(v, 8, 0xff), 0x9a);
    assert_eq!(get_field32(v, 16, 0xffff), 0x1234);
    assert_eq!(get_field64(0xdead_beef_0000_0000, 32, 0xffff_ffff), 0xdead_beef);
}

#[test]
fn last_write_wins() {
    let v = set_field32(set_field32(0, 3, 0x7, 5), 3, 0x7, 2);
    assert_eq!(get_field32(v, 3, 0x7), 2);
}

#[test]
fn single_bits() {
    assert_eq!(set_bit(0, 5, true), 32);
    assert_eq!(set_bit(0xff, 0, false), 0xfe);
    assert!(get_bit(32, 5));
    assert!(!get_bit(32, 4));
    assert_eq!(bit32(true), 1);
    assert_eq!(bit64(false), 0);
}
