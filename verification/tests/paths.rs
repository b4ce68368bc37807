//! The device path convention: `/dev/cpu/<cpu>/msr` with the CPU index in
//! decimal.

use msru::path::device_path;

#[test]
fn path_for_cpu_zero() {
    assert_eq!(device_path(0).as_str(), "/dev/cpu/0/msr");
}

#[test]
fn path_for_single_digit_cpu() {
    assert_eq!(device_path(7).as_str(), "/dev/cpu/7/msr");
}

#[test]
fn path_for_multi_digit_cpu() {
    assert_eq!(device_path(10).as_str(), "/dev/cpu/10/msr");
    assert_eq!(device_path(127).as_str(), "/dev/cpu/127/msr");
    assert_eq!(device_path(3072).as_str(), "/dev/cpu/3072/msr");
}

#[test]
fn path_for_largest_cpu_index() {
    assert_eq!(device_path(u16::MAX).as_str(), "/dev/cpu/65535/msr");
}
