//! The CPUID descriptor: a `kvm_cpuid2` header followed by a flexible array
//! of `kvm_cpuid_entry2` records, kept in one contiguous byte buffer so that
//! it can be handed to the kernel as it stands.
use vstd::prelude::*;
use crate::layout::{le, lemma_le_frame, lemma_le_zero, read_u32_le, write_u32_le};

verus! {

/// Size of the header, whose first four bytes hold the declared entry count.
pub const CPUID_HEADER_LEN: usize = 8;

/// Size of one entry record.
pub const CPUID_ENTRY_LEN: usize = 40;

/// Bytes of an entry record that hold its fields (the rest is padding).
pub const CPUID_ENTRY_FIELDS_LEN: usize = 28;

/// One CPUID leaf as the kernel reports or accepts it.
#[derive(Clone, Copy, Debug, PartialEq, Eq, Structural)]
pub struct CpuIdEntry {
    pub function: u32,
    pub index: u32,
    pub flags: u32,
    pub eax: u32,
    pub ebx: u32,
    pub ecx: u32,
    pub edx: u32,
}

/// Offset of entry `i` in the buffer.
pub open spec fn entry_offset(i: int) -> int {
    CPUID_HEADER_LEN + CPUID_ENTRY_LEN * i
}

/// The entry whose record starts at `off` of `b`.
pub open spec fn entry_of(b: Seq<u8>, off: int) -> CpuIdEntry {
    CpuIdEntry {
        function: le(b, off, 4) as u32,
        index: le(b, off + 4, 4) as u32,
        flags: le(b, off + 8, 4) as u32,
        eax: le(b, off + 12, 4) as u32,
        ebx: le(b, off + 16, 4) as u32,
        ecx: le(b, off + 20, 4) as u32,
        edx: le(b, off + 24, 4) as u32,
    }
}

/// The entry with every field zero.
pub open spec fn zero_entry() -> CpuIdEntry {
    CpuIdEntry { function: 0, index: 0, flags: 0, eax: 0, ebx: 0, ecx: 0, edx: 0 }
}

proof fn lemma_entry_frame(a: Seq<u8>, b: Seq<u8>, off: int)
    requires
        0 <= off,
        off + CPUID_ENTRY_FIELDS_LEN <= a.len(),
        off + CPUID_ENTRY_FIELDS_LEN <= b.len(),
        forall|k: int| off <= k < off + CPUID_ENTRY_FIELDS_LEN ==> a[k] == b[k],
    ensures
        entry_of(a, off) == entry_of(b, off),
{
    lemma_le_frame(a, b, off, 4);
    lemma_le_frame(a, b, off + 4, 4);
    lemma_le_frame(a, b, off + 8, 4);
    lemma_le_frame(a, b, off + 12, 4);
    lemma_le_frame(a, b, off + 16, 4);
    lemma_le_frame(a, b, off + 20, 4);
    lemma_le_frame(a, b, off + 24, 4);
}

proof fn lemma_entries_apart(i: int, j: int)
    requires
        0 <= i,
        0 <= j,
        i != j,
    ensures
        entry_offset(i) + CPUID_ENTRY_FIELDS_LEN <= entry_offset(j) || entry_offset(j)
            + CPUID_ENTRY_FIELDS_LEN <= entry_offset(i),
{
    assert(i < j ==> 40 * i + 40 <= 40 * j) by (nonlinear_arith);
    assert(j < i ==> 40 * j + 40 <= 40 * i) by (nonlinear_arith);
}

/// A `kvm_cpuid2` buffer with room for a fixed number of entries.
///
/// The declared count in the header may be changed by the kernel; it is
/// never trusted beyond the number of entries the buffer was built for.
#[derive(Clone, Debug)]
pub struct CpuId {
    bytes: Vec<u8>,
    allocated_len: usize,
}

impl CpuId {
    /// The buffer's bytes, laid out as the kernel reads them.
    pub closed spec fn raw(&self) -> Seq<u8> {
        self.bytes@
    }

    /// The number of entries the buffer was built for.
    pub closed spec fn capacity(&self) -> nat {
        self.allocated_len as nat
    }

    /// The buffer has the size that its capacity gives.
    pub closed spec fn wf(&self) -> bool {
        &&& self.bytes@.len() == entry_offset(self.allocated_len as int)
        &&& self.allocated_len <= u32::MAX
        &&& entry_offset(self.allocated_len as int) <= usize::MAX
    }

    /// The entry count that the header declares.
    pub open spec fn declared(&self) -> nat {
        le(self.raw(), 0, 4)
    }

    /// Entry `i` of the buffer, for `i` below the capacity.
    pub open spec fn entry(&self, i: int) -> CpuIdEntry {
        entry_of(self.raw(), entry_offset(i))
    }

    /// The number of entries that may be exposed: the declared count, cut
    /// down to the capacity.
    pub open spec fn visible(&self) -> nat {
        if self.declared() <= self.capacity() {
            self.declared()
        } else {
            self.capacity()
        }
    }

    proof fn lemma_wf_len(&self)
        requires
            self.wf(),
        ensures
            self.raw().len() == entry_offset(self.capacity() as int),
            forall|i: int|
                0 <= i < self.capacity() ==> entry_offset(i) + CPUID_ENTRY_LEN <= self.raw().len(),
    {
        assert forall|i: int| 0 <= i < self.capacity() implies entry_offset(i) + CPUID_ENTRY_LEN
            <= self.raw().len() by {
            let c = self.capacity() as int;
            assert(40 * i + 40 <= 40 * c) by (nonlinear_arith)
                requires
                    i < c,
            ;
        }
    }

    /// However large the declared count grows, the entries that may be
    /// exposed never exceed the capacity; a declared count above it exposes
    /// exactly the capacity.
    pub proof fn lemma_visible_within_capacity(&self)
        requires
            self.wf(),
        ensures
            self.visible() <= self.capacity(),
            self.declared() > self.capacity() ==> self.visible() == self.capacity(),
            self.declared() <= self.capacity() ==> self.visible() == self.declared(),
    {
    }

    /// A zero-filled buffer for `array_len` entries whose header declares
    /// `array_len` entries.
    pub fn new(array_len: usize) -> (r: CpuId)
        requires
            array_len <= u32::MAX,
            entry_offset(array_len as int) <= usize::MAX,
        ensures
            r.wf(),
            r.capacity() == array_len,
            r.declared() == array_len,
            forall|k: int| 4 <= k < r.raw().len() ==> #[trigger] r.raw()[k] == 0,
            forall|i: int| 0 <= i < array_len ==> #[trigger] r.entry(i) == zero_entry(),
    {
        let size = CPUID_HEADER_LEN + CPUID_ENTRY_LEN * array_len;
        let mut bytes: Vec<u8> = Vec::new();
        let mut k: usize = 0;
        while k < size
            invariant
                k <= size,
                bytes@.len() == k,
                forall|j: int| 0 <= j < k ==> bytes@[j] == 0,
            decreases size - k,
        {
            bytes.push(0);
            k = k + 1;
        }
        let ghost zeroed = bytes@;
        write_u32_le(&mut bytes, 0, array_len as u32);
        let r = CpuId { bytes, allocated_len: array_len };
        proof {
            r.lemma_wf_len();
            assert forall|i: int| 0 <= i < array_len implies #[trigger] r.entry(i) == zero_entry() by {
                let off = entry_offset(i);
                lemma_entry_frame(zeroed, r.raw(), off);
                lemma_le_zero(zeroed, off, 4);
                lemma_le_zero(zeroed, off + 4, 4);
                lemma_le_zero(zeroed, off + 8, 4);
                lemma_le_zero(zeroed, off + 12, 4);
                lemma_le_zero(zeroed, off + 16, 4);
                lemma_le_zero(zeroed, off + 20, 4);
                lemma_le_zero(zeroed, off + 24, 4);
            }
        }
        r
    }

    /// The number of entries the buffer was built for.
    pub fn allocated_len(&self) -> (r: usize)
        ensures
            r == self.capacity(),
    {
        self.allocated_len
    }

    /// The entry count that the header declares, as it stands.
    pub fn declared_len(&self) -> (r: u32)
        requires
            self.wf(),
        ensures
            r == self.declared(),
    {
        read_u32_le(self.bytes.as_slice(), 0)
    }

    /// Overwrites the declared entry count, as the kernel does when it
    /// reports how many entries it filled in. The entries stay as they were.
    pub fn set_declared_len(&mut self, n: u32)
        requires
            old(self).wf(),
        ensures
            final(self).wf(),
            final(self).capacity() == old(self).capacity(),
            final(self).declared() == n,
            final(self).raw().len() == old(self).raw().len(),
            forall|k: int|
                4 <= k < old(self).raw().len() ==> #[trigger] final(self).raw()[k] == old(self).raw()[k],
            forall|i: int|
                0 <= i < old(self).capacity() ==> #[trigger] final(self).entry(i) == old(self).entry(
                    i,
                ),
    {
        let ghost before = self.raw();
        proof {
            self.lemma_wf_len();
        }
        write_u32_le(&mut self.bytes, 0, n);
        proof {
            assert forall|i: int| 0 <= i < old(self).capacity() implies #[trigger] self.entry(i)
                == old(self).entry(i) by {
                lemma_entry_frame(before, self.raw(), entry_offset(i));
            }
        }
    }

    /// Reads entry `i`.
    pub fn get_entry(&self, i: usize) -> (r: CpuIdEntry)
        requires
            self.wf(),
            i < self.capacity(),
        ensures
            r == self.entry(i as int),
    {
        proof {
            self.lemma_wf_len();
        }
        let b = self.bytes.as_slice();
        let off = CPUID_HEADER_LEN + CPUID_ENTRY_LEN * i;
        CpuIdEntry {
            function: read_u32_le(b, off),
            index: read_u32_le(b, off + 4),
            flags: read_u32_le(b, off + 8),
            eax: read_u32_le(b, off + 12),
            ebx: read_u32_le(b, off + 16),
            ecx: read_u32_le(b, off + 20),
            edx: read_u32_le(b, off + 24),
        }
    }

    /// The entries that may be used: as many as the header declares, but
    /// never more than the capacity. A declared count above the capacity is
    /// first cut down to it in the header.
    pub fn entries(&mut self) -> (r: Vec<CpuIdEntry>)
        requires
            old(self).wf(),
        ensures
            final(self).wf(),
            final(self).capacity() == old(self).capacity(),
            final(self).declared() == old(self).visible(),
            final(self).raw().len() == old(self).raw().len(),
            forall|k: int|
                4 <= k < old(self).raw().len() ==> #[trigger] final(self).raw()[k] == old(self).raw()[k],
            old(self).declared() <= old(self).capacity() ==> final(self).raw() == old(self).raw(),
            forall|i: int|
                0 <= i < old(self).capacity() ==> #[trigger] final(self).entry(i) == old(self).entry(
                    i,
                ),
            r@.len() == old(self).visible(),
            r@.len() <= old(self).capacity(),
            forall|i: int| 0 <= i < r@.len() ==> #[trigger] r@[i] == old(self).entry(i),
    {
        let declared = self.declared_len();
        if declared as usize > self.allocated_len {
            self.set_declared_len(self.allocated_len as u32);
        }
        let n = self.declared_len() as usize;
        let ghost clamped = self.raw();
        let mut r: Vec<CpuIdEntry> = Vec::new();
        let mut i: usize = 0;
        while i < n
            invariant
                self.wf(),
                self.capacity() == old(self).capacity(),
                n == old(self).visible(),
                n <= self.capacity(),
                self.raw() == clamped,
                i <= n,
                r@.len() == i,
                forall|j: int|
                    0 <= j < old(self).capacity() ==> #[trigger] self.entry(j) == old(self).entry(j),
                forall|j: int| 0 <= j < i ==> #[trigger] r@[j] == old(self).entry(j),
            decreases n - i,
        {
            r.push(self.get_entry(i));
            i = i + 1;
        }
        r
    }

    /// Replaces entry `i`, leaving the header and every other entry as they were.
    pub fn set_entry(&mut self, i: usize, e: CpuIdEntry)
        requires
            old(self).wf(),
            i < old(self).capacity(),
        ensures
            final(self).wf(),
            final(self).capacity() == old(self).capacity(),
            final(self).declared() == old(self).declared(),
            final(self).entry(i as int) == e,
            final(self).raw().len() == old(self).raw().len(),
            forall|k: int|
                0 <= k < old(self).raw().len() && !(entry_offset(i as int) <= k < entry_offset(i as int)
                    + CPUID_ENTRY_FIELDS_LEN) ==> #[trigger] final(self).raw()[k] == old(self).raw()[k],
            forall|j: int|
                0 <= j < old(self).capacity() && j != i ==> #[trigger] final(self).entry(j)
                    == old(self).entry(j),
    {
        proof {
            self.lemma_wf_len();
        }
        let ghost b0 = self.raw();
        let off = CPUID_HEADER_LEN + CPUID_ENTRY_LEN * i;
        write_u32_le(&mut self.bytes, off, e.function);
        let ghost b1 = self.raw();
        write_u32_le(&mut self.bytes, off + 4, e.index);
        let ghost b2 = self.raw();
        write_u32_le(&mut self.bytes, off + 8, e.flags);
        let ghost b3 = self.raw();
        write_u32_le(&mut self.bytes, off + 12, e.eax);
        let ghost b4 = self.raw();
        write_u32_le(&mut self.bytes, off + 16, e.ebx);
        let ghost b5 = self.raw();
        write_u32_le(&mut self.bytes, off + 20, e.ecx);
        let ghost b6 = self.raw();
        write_u32_le(&mut self.bytes, off + 24, e.edx);
        proof {
            let b7 = self.raw();
            let o = off as int;
            lemma_le_frame(b1, b7, o, 4);
            lemma_le_frame(b2, b7, o + 4, 4);
            lemma_le_frame(b3, b7, o + 8, 4);
            lemma_le_frame(b4, b7, o + 12, 4);
            lemma_le_frame(b5, b7, o + 16, 4);
            lemma_le_frame(b6, b7, o + 20, 4);
            lemma_le_frame(b0, b7, 0, 4);
            assert forall|j: int|
                0 <= j < old(self).capacity() && j != i implies #[trigger] self.entry(j)
                == old(self).entry(j) by {
                lemma_entries_apart(i as int, j);
                lemma_entry_frame(b0, b7, entry_offset(j));
            }
        }
    }

    /// The buffer's bytes, to hand to a kernel request that reads them.
    pub fn as_bytes(&self) -> (r: &[u8])
        requires
            self.wf(),
        ensures
            r@ == self.raw(),
            r@.len() == entry_offset(self.capacity() as int),
    {
        self.bytes.as_slice()
    }

    /// A copy of the buffer, byte for byte, with the same capacity.
    pub fn duplicate(&self) -> (r: CpuId)
        requires
            self.wf(),
        ensures
            r.wf(),
            r.raw() == self.raw(),
            r.capacity() == self.capacity(),
    {
        let n = self.bytes.len();
        let mut bytes: Vec<u8> = Vec::new();
        let mut k: usize = 0;
        while k < n
            invariant
                k <= n,
                n == self.bytes@.len(),
                bytes@ == self.bytes@.subrange(0, k as int),
            decreases n - k,
        {
            bytes.push(self.bytes[k]);
            k = k + 1;
        }
        assert(bytes@ =~= self.bytes@);
        CpuId { bytes, allocated_len: self.allocated_len }
    }

    /// Gives up the buffer's bytes, to hand to a kernel request that fills
    /// them in.
    pub fn into_bytes(self) -> (r: Vec<u8>)
        ensures
            r@ == self.raw(),
    {
        self.bytes
    }

    /// Takes back a buffer for `allocated_len` entries. It is refused unless
    /// its size is exactly that of a header and `allocated_len` entries.
    pub fn from_bytes(bytes: Vec<u8>, allocated_len: usize) -> (r: Option<CpuId>)
        ensures
            r is Some <==> (allocated_len <= u32::MAX && bytes@.len() == entry_offset(
                allocated_len as int,
            )),
            r matches Some(c) ==> c.wf() && c.raw() == bytes@ && c.capacity() == allocated_len,
    {
        let len = bytes.len();
        if allocated_len > u32::MAX as usize || len < CPUID_HEADER_LEN {
            return None;
        }
        if allocated_len > (len - CPUID_HEADER_LEN) / CPUID_ENTRY_LEN {
            assert(8 + 40 * (allocated_len as int) != len) by (nonlinear_arith)
                requires
                    allocated_len > (len - 8) / 40,
                    len >= 8,
            ;
            return None;
        }
        assert(40 * (allocated_len as int) <= len - 8) by (nonlinear_arith)
            requires
                allocated_len <= (len - 8) / 40,
                len >= 8,
        ;
        if CPUID_HEADER_LEN + CPUID_ENTRY_LEN * allocated_len != len {
            return None;
        }
        Some(CpuId { bytes, allocated_len })
    }
}

} // verus!
