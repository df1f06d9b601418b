use kvm::{
    check_fd, check_non_negative, check_zero, extension_present, mmap_size_from_raw,
    nr_vcpus_from_raw, nr_vcpus_report_invalid, Cap, Error, DEFAULT_NR_VCPUS,
};

#[test]
fn extension_present_only_for_exactly_one() {
    assert!(extension_present(1));
    assert!(!extension_present(0));
    assert!(!extension_present(2));
    assert!(!extension_present(-1));
    assert!(!extension_present(i32::MAX));
}

#[test]
fn nr_vcpus_positive_raw_kept() {
    assert_eq!(nr_vcpus_from_raw(7), 7);
    assert_eq!(nr_vcpus_from_raw(1), 1);
    assert_eq!(nr_vcpus_from_raw(288), 288);
    assert!(!nr_vcpus_report_invalid(7));
}

#[test]
fn nr_vcpus_zero_gives_default() {
    assert_eq!(nr_vcpus_from_raw(0), 4);
    assert_eq!(DEFAULT_NR_VCPUS, 4);
    assert!(!nr_vcpus_report_invalid(0));
}

#[test]
fn nr_vcpus_negative_gives_default_and_warns() {
    for raw in [-1, -22, i32::MIN] {
        assert_eq!(nr_vcpus_from_raw(raw), 4);
        assert!(nr_vcpus_from_raw(raw) >= 4);
        assert!(nr_vcpus_report_invalid(raw));
    }
}

#[test]
fn mmap_size_positive_is_size() {
    assert_eq!(mmap_size_from_raw(12288, 0), Ok(12288));
    assert_eq!(mmap_size_from_raw(1, 5), Ok(1));
}

#[test]
fn mmap_size_zero_or_negative_fails() {
    assert_eq!(mmap_size_from_raw(0, 22), Err(Error::new(22)));
    assert_eq!(mmap_size_from_raw(-1, 13).unwrap_err().errno(), 13);
}

#[test]
fn check_zero_results() {
    assert_eq!(check_zero(0, 5), Ok(()));
    assert_eq!(check_zero(1, 5), Err(Error::new(5)));
    assert_eq!(check_zero(-1, 22), Err(Error::new(22)));
}

#[test]
fn check_non_negative_results() {
    assert_eq!(check_non_negative(0, 5), Ok(()));
    assert_eq!(check_non_negative(3, 5), Ok(()));
    assert_eq!(check_non_negative(-1, 7), Err(Error::new(7)));
}

#[test]
fn check_fd_results() {
    assert_eq!(check_fd(9, 0), Ok(9));
    assert_eq!(check_fd(0, 0), Ok(0));
    assert_eq!(check_fd(-1, 24), Err(Error::new(24)));
}

#[test]
fn error_numbers_from_libc() {
    assert_eq!(Error::invalid_argument().errno(), 22);
    assert_eq!(Error::mapping_failed().errno(), 28);
    assert_ne!(Error::invalid_argument(), Error::mapping_failed());
}

#[test]
fn capability_numbers() {
    assert_eq!(Cap::Irqchip.number(), 0);
    assert_eq!(Cap::UserMemory.number(), 3);
    assert_eq!(Cap::ExtCpuid.number(), 7);
    assert_eq!(Cap::NrVcpus.number(), 9);
    assert_eq!(Cap::MaxVcpus.number(), 66);
    assert_eq!(Cap::S390UserSigp.number(), 106);
}
