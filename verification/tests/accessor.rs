//! Exercises the register accessor against the in-memory stand-in devices:
//! one simulating a machine with the kernel module loaded, one without.

use msru::Accessor;
use msru::AbsentDevice;
use msru::MemDevice;
use msru::Msr;
use msru::MsrError;
use msru::MEM_DEVICE_LEN;

#[test]
fn round_trip_zero() {
    let mut m: Msr<MemDevice> = Msr::new(0x10, 0).unwrap();
    m.set_value(0);
    assert_eq!(m.read_value(), 0);
}

#[test]
fn round_trip_max() {
    let mut m: Msr<MemDevice> = Msr::new(0x10, 0).unwrap();
    m.set_value(u64::MAX);
    assert_eq!(m.read_value(), u64::MAX);
}

#[test]
fn round_trip_mixed_bytes() {
    let mut m: Msr<MemDevice> = Msr::new(0x10, 0).unwrap();
    m.set_value(0xDEAD_BEEF_CAFE_BABE);
    assert_eq!(m.read_value(), 0xDEAD_BEEF_CAFE_BABE);
    m.set_value(0x0102_0304_0506_0708);
    assert_eq!(m.read_value(), 0x0102_0304_0506_0708);
}

#[test]
fn fresh_accessor_buffer_decodes_to_zero() {
    let mut m: Msr<MemDevice> = Msr::new(0x10, 0).unwrap();
    assert_eq!(m.read_value(), 0);
}

#[test]
fn missing_module_detected() {
    let r: Result<Msr<AbsentDevice>, MsrError> = Msr::new(0x10, 0);
    assert!(matches!(r, Err(MsrError::MissingKernelModule)));
}

#[test]
fn write_then_read_consistency() {
    let mut m: Msr<MemDevice> = Msr::new(0x10, 0).unwrap();
    m.set_value(0xDEAD_BEEF_CAFE_BABE);
    assert!(m.write().is_ok());
    let got = m.read().unwrap();
    assert_eq!(got, 0xDEAD_BEEF_CAFE_BABE);
}

#[test]
fn read_without_prior_encode() {
    // A freshly constructed accessor reads successfully and the read fully
    // overwrites whatever the buffer held.
    let mut m: Msr<MemDevice> = Msr::new(0x20, 0).unwrap();
    m.set_value(0x1111_2222_3333_4444);
    let got = m.read().unwrap();
    assert_eq!(got, 0);
    assert_eq!(m.read_value(), 0);
}

#[test]
fn write_ignores_cursor_position() {
    // A positioned write lands at the register even when a prior read has
    // moved the cursor well past it, and even when no seek ever happened.
    let mut m: Msr<MemDevice> = Msr::new(0x40, 0).unwrap();
    m.set_value(0x00C0_FFEE_0000_1234);
    // Cursor is still at 0, nowhere near register 0x40.
    assert!(m.write().is_ok());
    assert_eq!(m.read().unwrap(), 0x00C0_FFEE_0000_1234);
    // The read above advanced the cursor to 0x48; write again regardless.
    m.set_value(0x5555_6666_7777_8888);
    assert!(m.write().is_ok());
    assert_eq!(m.read().unwrap(), 0x5555_6666_7777_8888);
}

#[test]
fn short_read_fails_with_io_error() {
    // The stand-in device serves MEM_DEVICE_LEN bytes; a register four
    // bytes before its end leaves fewer than eight bytes to read.
    let reg = (MEM_DEVICE_LEN - 4) as u32;
    let mut m: Msr<MemDevice> = Msr::new(reg, 0).unwrap();
    let r = m.read();
    assert!(matches!(r, Err(MsrError::IoError(_))));
}

#[test]
fn read_at_register_zero_succeeds() {
    let mut m: Msr<MemDevice> = Msr::new(0, 0).unwrap();
    m.set_value(0x0123_4567_89AB_CDEF);
    assert!(m.write().is_ok());
    assert_eq!(m.read().unwrap(), 0x0123_4567_89AB_CDEF);
}

#[test]
fn largest_register_address_fails_on_small_device() {
    let mut m: Msr<MemDevice> = Msr::new(u32::MAX, 0).unwrap();
    assert!(matches!(m.read(), Err(MsrError::IoError(_))));
    assert!(matches!(m.write(), Err(MsrError::IoError(_))));
}

#[test]
fn read_at_last_full_register_succeeds() {
    let reg = (MEM_DEVICE_LEN - 8) as u32;
    let mut m: Msr<MemDevice> = Msr::new(reg, 0).unwrap();
    assert_eq!(m.read().unwrap(), 0);
}

#[test]
fn write_out_of_range_fails_and_preserves_contents() {
    let reg = (MEM_DEVICE_LEN - 4) as u32;
    let mut m: Msr<MemDevice> = Msr::new(reg, 0).unwrap();
    m.set_value(0xFFFF_FFFF_FFFF_FFFF);
    assert!(matches!(m.write(), Err(MsrError::IoError(_))));
}

#[test]
fn representative_register_with_module_loaded() {
    // Register 0x10, CPU 0, on a simulated machine whose device node
    // exists: construction succeeds and a read decodes a value.
    let mut m: Msr<MemDevice> = Msr::new(0x10, 0).unwrap();
    let value = m.read().unwrap();
    assert_eq!(value, 0);
}

#[test]
fn representative_register_with_module_missing() {
    // The same register and CPU on a simulated machine without the device
    // node: construction reports the missing facility.
    let r: Result<Msr<AbsentDevice>, MsrError> = Msr::new(0x10, 0);
    assert!(matches!(r, Err(MsrError::MissingKernelModule)));
}

#[test]
fn distinct_accessors_are_independent() {
    let mut a: Msr<MemDevice> = Msr::new(0x10, 0).unwrap();
    let mut b: Msr<MemDevice> = Msr::new(0x10, 1).unwrap();
    a.set_value(7);
    assert!(a.write().is_ok());
    // b owns its own device; a's write cannot be seen through it.
    assert_eq!(b.read().unwrap(), 0);
    assert_eq!(a.read().unwrap(), 7);
}
