//! How the raw answers of the KVM system handle become values.
use vstd::prelude::*;
use crate::error::Error;

verus! {

/// The recommended number of virtual CPUs when the kernel gives none.
pub const DEFAULT_NR_VCPUS: usize = 4;

/// A capability is present when its check returns exactly 1.
pub open spec fn extension_available(raw: i32) -> bool {
    raw == 1
}

/// The recommended number of virtual CPUs for a raw capability answer:
/// a positive answer as it is, anything else the default.
pub open spec fn nr_vcpus_of(raw: i32) -> nat {
    if raw > 0 {
        raw as nat
    } else {
        DEFAULT_NR_VCPUS as nat
    }
}

/// Whether a capability is present, from the raw result of its check.
/// Any result other than 1 (also another positive one) means it is not.
pub fn extension_present(raw: i32) -> (r: bool)
    ensures
        r == extension_available(raw),
{
    raw == 1
}

/// The recommended number of virtual CPUs, from the raw answer to the
/// vcpu-count capability.
pub fn nr_vcpus_from_raw(raw: i32) -> (r: usize)
    ensures
        r == nr_vcpus_of(raw),
        raw <= 0 ==> r >= DEFAULT_NR_VCPUS,
        r >= 1,
{
    if raw > 0 {
        raw as usize
    } else {
        DEFAULT_NR_VCPUS
    }
}

/// Whether the raw answer to the vcpu-count capability is invalid (negative),
/// so that the default stands in for a value the kernel should have given.
pub fn nr_vcpus_report_invalid(raw: i32) -> (r: bool)
    ensures
        r == (raw < 0),
{
    raw < 0
}

/// The size of a virtual CPU's control block, from the raw result of the
/// size request: a positive result is the size, anything else a failure with
/// the error number the request left.
pub fn mmap_size_from_raw(raw: i32, errno: i32) -> (r: Result<usize, Error>)
    ensures
        raw > 0 <==> r is Ok,
        raw > 0 ==> r == Ok::<usize, Error>(raw as usize),
        raw <= 0 ==> r == Err::<usize, Error>(Error { errno }),
{
    if raw > 0 {
        Ok(raw as usize)
    } else {
        Err(Error::new(errno))
    }
}

} // verus!
