use gdt::register::gdtreg;
use gdt::{ENTRIES, ENTRY_BYTES, TABLE_BYTES};

#[test]
fn table_is_sixteen_entries_of_eight_bytes() {
    assert_eq!(ENTRIES, 16);
    assert_eq!(ENTRY_BYTES, 8);
    assert_eq!(TABLE_BYTES, 128);
}

#[test]
fn register_limit_is_table_size_plus_one() {
    let r = gdtreg::new(0x0010_0000);
    assert_eq!(r.limit, 129);
    assert_eq!(r.limit as usize, TABLE_BYTES + 1);
}

#[test]
fn register_keeps_the_address() {
    assert_eq!(gdtreg::new(0).addr, 0);
    assert_eq!(gdtreg::new(0x0010_0000).addr, 0x0010_0000);
    assert_eq!(gdtreg::new(usize::MAX).addr, usize::MAX);
    assert_eq!(gdtreg::new(usize::MAX).limit, 129);
}

#[test]
fn register_bytes_are_packed() {
    let r = gdtreg::new(0x1234_5678);
    let bytes = r.to_bytes();
    assert_eq!(bytes.len(), 2 + (usize::BITS / 8) as usize);
    assert_eq!(&bytes[..6], &[0x81, 0x00, 0x78, 0x56, 0x34, 0x12]);
    assert!(bytes[6..].iter().all(|b| *b == 0));
}

#[test]
fn register_bytes_hold_the_whole_address() {
    let r = gdtreg::new(usize::MAX);
    let bytes = r.to_bytes();
    assert_eq!(&bytes[..2], &[129, 0]);
    assert!(bytes[2..].iter().all(|b| *b == 0xFF));
    let addr = usize::MAX - 0xFF;
    let low_first = gdtreg::new(addr).to_bytes();
    assert_eq!(&low_first[2..], &addr.to_le_bytes()[..]);
}
