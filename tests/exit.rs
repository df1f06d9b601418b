use kvm::{decode_exit, exit_reason_is_known, DataRange, Error, VcpuExit};

fn block(reason: u32) -> Vec<u8> {
    let mut b = vec![0u8; 4096];
    b[8..12].copy_from_slice(&reason.to_le_bytes());
    b
}

fn io_block(direction: u8, size: u8, port: u16, count: u32, offset: u64) -> Vec<u8> {
    let mut b = block(2);
    b[32] = direction;
    b[33] = size;
    b[34..36].copy_from_slice(&port.to_le_bytes());
    b[36..40].copy_from_slice(&count.to_le_bytes());
    b[40..48].copy_from_slice(&offset.to_le_bytes());
    b
}

fn mmio_block(addr: u64, len: u32, is_write: u8) -> Vec<u8> {
    let mut b = block(6);
    b[32..40].copy_from_slice(&addr.to_le_bytes());
    b[48..52].copy_from_slice(&len.to_le_bytes());
    b[52] = is_write;
    b
}

#[test]
fn halt_exit() {
    let b = block(5);
    assert!(exit_reason_is_known(&b));
    assert_eq!(decode_exit(&b), Ok(VcpuExit::Hlt));
}

#[test]
fn fail_entry_and_shutdown_exits() {
    assert_eq!(decode_exit(&block(9)), Ok(VcpuExit::FailEntry));
    assert_eq!(decode_exit(&block(8)), Ok(VcpuExit::Shutdown));
}

#[test]
fn every_plain_reason() {
    let expected = [
        (0, VcpuExit::Unknown),
        (1, VcpuExit::Exception),
        (3, VcpuExit::Hypercall),
        (4, VcpuExit::Debug),
        (7, VcpuExit::IrqWindowOpen),
        (10, VcpuExit::Intr),
        (11, VcpuExit::SetTpr),
        (12, VcpuExit::TprAccess),
        (13, VcpuExit::S390Sieic),
        (14, VcpuExit::S390Reset),
        (15, VcpuExit::Dcr),
        (16, VcpuExit::Nmi),
        (17, VcpuExit::InternalError),
        (18, VcpuExit::Osi),
        (19, VcpuExit::PaprHcall),
        (20, VcpuExit::S390Ucontrol),
        (21, VcpuExit::Watchdog),
        (22, VcpuExit::S390Tsch),
        (23, VcpuExit::Epr),
        (24, VcpuExit::SystemEvent),
    ];
    for (reason, exit) in expected {
        assert_eq!(decode_exit(&block(reason)), Ok(exit));
    }
}

#[test]
fn unknown_reason_is_not_decodable() {
    assert!(!exit_reason_is_known(&block(25)));
    assert!(!exit_reason_is_known(&block(0x1_0000)));
    assert!(exit_reason_is_known(&block(24)));
}

#[test]
fn short_block_is_not_decodable() {
    let b = block(5);
    assert!(!exit_reason_is_known(&b[..55]));
    assert!(exit_reason_is_known(&b[..56]));
}

#[test]
fn io_in_exit() {
    let b = io_block(0, 1, 0x3f8, 1, 4096 - 64);
    assert_eq!(
        decode_exit(&b),
        Ok(VcpuExit::IoIn(0x3f8, DataRange { offset: 4032, len: 1 }))
    );
}

#[test]
fn io_out_exit_counts_times_size() {
    let b = io_block(1, 4, 0xcf8, 3, 100);
    assert_eq!(
        decode_exit(&b),
        Ok(VcpuExit::IoOut(0xcf8, DataRange { offset: 100, len: 12 }))
    );
}

#[test]
fn io_bad_direction_fails() {
    let b = io_block(2, 1, 0x60, 1, 100);
    assert_eq!(decode_exit(&b), Err(Error::new(22)));
}

#[test]
fn io_data_outside_block_fails() {
    assert_eq!(decode_exit(&io_block(0, 4, 0x60, 2, 4090)), Err(Error::new(22)));
    assert_eq!(decode_exit(&io_block(0, 1, 0x60, 1, u64::MAX)), Err(Error::new(22)));
    assert_eq!(
        decode_exit(&io_block(1, 2, 0x60, 2, 4092)),
        Ok(VcpuExit::IoOut(0x60, DataRange { offset: 4092, len: 4 }))
    );
}

#[test]
fn mmio_write_exit() {
    let b = mmio_block(0xfee0_0000, 4, 1);
    assert_eq!(
        decode_exit(&b),
        Ok(VcpuExit::MmioWrite(0xfee0_0000, DataRange { offset: 40, len: 4 }))
    );
}

#[test]
fn mmio_read_exit() {
    let b = mmio_block(0x1000, 8, 0);
    assert_eq!(
        decode_exit(&b),
        Ok(VcpuExit::MmioRead(0x1000, DataRange { offset: 40, len: 8 }))
    );
}

#[test]
fn mmio_length_over_buffer_fails() {
    assert_eq!(decode_exit(&mmio_block(0x1000, 9, 0)), Err(Error::new(22)));
}
