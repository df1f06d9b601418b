//! A safe control surface over the kernel's KVM interface.
//!
//! The library holds the decisions that sit between the raw kernel requests:
//! how a raw request result becomes a value or an error, the capabilities
//! that can be queried, the bounded CPUID descriptor buffer, and the decoding
//! of the shared `kvm_run` control block after a guest exit.

mod cap;
mod cpuid;
mod error;
mod exit;
mod layout;
mod system;

pub use cap::Cap;
pub use cpuid::{CpuId, CpuIdEntry};
pub use error::{check_fd, check_non_negative, check_zero, Error};
pub use exit::{decode_exit, exit_reason_is_known, DataRange, DecodedExit, VcpuExit};
pub use system::{
    extension_present, mmap_size_from_raw, nr_vcpus_from_raw, nr_vcpus_report_invalid,
    DEFAULT_NR_VCPUS,
};
