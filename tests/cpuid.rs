use kvm::{CpuId, CpuIdEntry};

fn sample_entry() -> CpuIdEntry {
    CpuIdEntry {
        function: 0x4000_0001,
        index: 2,
        flags: 1,
        eax: 0xdead_beef,
        ebx: 0x0102_0304,
        ecx: 0,
        edx: u32::MAX,
    }
}

#[test]
fn new_buffer_layout() {
    let c = CpuId::new(3);
    assert_eq!(c.allocated_len(), 3);
    assert_eq!(c.declared_len(), 3);
    let b = c.as_bytes();
    assert_eq!(b.len(), 8 + 3 * 40);
    assert_eq!(&b[0..4], &[3, 0, 0, 0]);
    assert!(b[4..].iter().all(|&x| x == 0));
}

#[test]
fn new_entries_are_zero() {
    let mut c = CpuId::new(2);
    let e = c.entries();
    assert_eq!(e.len(), 2);
    for x in e {
        assert_eq!(x, CpuIdEntry { function: 0, index: 0, flags: 0, eax: 0, ebx: 0, ecx: 0, edx: 0 });
    }
}

#[test]
fn empty_buffer() {
    let mut c = CpuId::new(0);
    assert_eq!(c.as_bytes().len(), 8);
    assert!(c.entries().is_empty());
}

#[test]
fn oversized_declared_count_is_clamped() {
    let mut c = CpuId::new(4);
    c.set_declared_len(4 + 1000);
    assert_eq!(c.declared_len(), 1004);
    let e = c.entries();
    assert_eq!(e.len(), 4);
    assert_eq!(c.declared_len(), 4);
    assert_eq!(&c.as_bytes()[0..4], &[4, 0, 0, 0]);
}

#[test]
fn smaller_declared_count_limits_entries() {
    let mut c = CpuId::new(5);
    c.set_entry(0, sample_entry());
    c.set_declared_len(1);
    let e = c.entries();
    assert_eq!(e, vec![sample_entry()]);
    assert_eq!(c.declared_len(), 1);
}

#[test]
fn set_entry_round_trip_and_bytes() {
    let mut c = CpuId::new(3);
    c.set_entry(1, sample_entry());
    assert_eq!(c.get_entry(1), sample_entry());
    assert_eq!(c.get_entry(0).eax, 0);
    assert_eq!(c.get_entry(2).edx, 0);
    assert_eq!(c.declared_len(), 3);
    let b = c.as_bytes();
    let off = 8 + 40;
    assert_eq!(&b[off..off + 4], &[0x01, 0x00, 0x00, 0x40]);
    assert_eq!(&b[off + 12..off + 16], &[0xef, 0xbe, 0xad, 0xde]);
    assert_eq!(&b[off + 24..off + 28], &[0xff, 0xff, 0xff, 0xff]);
    let e = c.entries();
    assert_eq!(e[1], sample_entry());
}

#[test]
fn bytes_written_by_kernel_are_read() {
    let mut b = CpuId::new(2).into_bytes();
    b[0] = 1;
    b[8] = 0x0d;
    b[8 + 12] = 0x2a;
    let mut c = CpuId::from_bytes(b, 2).unwrap();
    assert_eq!(c.declared_len(), 1);
    let e = c.entries();
    assert_eq!(e.len(), 1);
    assert_eq!(e[0].function, 0x0d);
    assert_eq!(e[0].eax, 0x2a);
}

#[test]
fn from_bytes_checks_size() {
    assert!(CpuId::from_bytes(vec![0; 8 + 2 * 40], 2).is_some());
    assert!(CpuId::from_bytes(vec![0; 8 + 2 * 40], 1).is_none());
    assert!(CpuId::from_bytes(vec![0; 8 + 2 * 40 - 1], 2).is_none());
    assert!(CpuId::from_bytes(vec![0; 7], 0).is_none());
    assert!(CpuId::from_bytes(vec![0; 8], 0).is_some());
}

#[test]
fn padding_bytes_kept() {
    let mut b = CpuId::new(2).into_bytes();
    b[5] = 0x77;
    b[8 + 30] = 0x55;
    b[0] = 9;
    let mut c = CpuId::from_bytes(b, 2).unwrap();
    c.entries();
    c.set_entry(0, sample_entry());
    c.set_declared_len(2);
    let b = c.as_bytes();
    assert_eq!(b[0], 2);
    assert_eq!(b[5], 0x77);
    assert_eq!(b[8 + 30], 0x55);
}

#[test]
fn duplicate_is_byte_exact() {
    let mut c = CpuId::new(3);
    c.set_entry(2, sample_entry());
    c.set_declared_len(7);
    let d = c.duplicate();
    assert_eq!(d.as_bytes(), c.as_bytes());
    assert_eq!(d.allocated_len(), 3);
    assert_eq!(d.declared_len(), 7);
}

#[test]
fn clone_keeps_bytes() {
    let mut c = CpuId::new(2);
    c.set_entry(0, sample_entry());
    let d = c.clone();
    assert_eq!(d.as_bytes(), c.as_bytes());
    assert_eq!(d.allocated_len(), 2);
}
