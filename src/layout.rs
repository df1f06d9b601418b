//! Little-endian integers inside byte buffers laid out by the kernel ABI.
use vstd::prelude::*;

verus! {

/// `256` raised to the power `n`.
pub open spec fn pow256(n: nat) -> nat
    decreases n,
{
    if n == 0 {
        1
    } else {
        256 * pow256((n - 1) as nat)
    }
}

/// The unsigned little-endian integer held by the `n` bytes of `b` that start at `off`.
pub open spec fn le(b: Seq<u8>, off: int, n: nat) -> nat
    decreases n,
{
    if n == 0 {
        0
    } else {
        le(b, off, (n - 1) as nat) + pow256((n - 1) as nat) * (b[off + n - 1] as nat)
    }
}

proof fn lemma_pow256_grows(n: nat)
    ensures
        pow256(n) >= 1,
        pow256(n + 1) == 256 * pow256(n),
    decreases n,
{
    reveal_with_fuel(pow256, 2);
    if n > 0 {
        lemma_pow256_grows((n - 1) as nat);
    }
}

proof fn lemma_pow256_monotone(m: nat, n: nat)
    requires
        m <= n,
    ensures
        pow256(m) <= pow256(n),
    decreases n - m,
{
    if m < n {
        lemma_pow256_monotone(m, (n - 1) as nat);
        lemma_pow256_grows((n - 1) as nat);
    }
}

/// `le` reads only the bytes in its window.
pub proof fn lemma_le_frame(a: Seq<u8>, b: Seq<u8>, off: int, n: nat)
    requires
        0 <= off,
        off + n <= a.len(),
        off + n <= b.len(),
        forall|k: int| off <= k < off + n ==> a[k] == b[k],
    ensures
        le(a, off, n) == le(b, off, n),
    decreases n,
{
    if n > 0 {
        lemma_le_frame(a, b, off, (n - 1) as nat);
    }
}

/// A window of zero bytes holds zero.
pub proof fn lemma_le_zero(b: Seq<u8>, off: int, n: nat)
    requires
        forall|k: int| off <= k < off + n ==> b[k] == 0,
    ensures
        le(b, off, n) == 0,
    decreases n,
{
    if n > 0 {
        lemma_le_zero(b, off, (n - 1) as nat);
    }
}

/// A value of `n` bytes is below `256^n`.
pub proof fn lemma_le_bound(b: Seq<u8>, off: int, n: nat)
    ensures
        le(b, off, n) < pow256(n),
    decreases n,
{
    if n > 0 {
        let m = (n - 1) as nat;
        lemma_le_bound(b, off, m);
        lemma_pow256_grows(m);
        let v = le(b, off, m);
        let p = pow256(m);
        let x = b[off + n - 1] as nat;
        assert(v + p * x < 256 * p) by (nonlinear_arith)
            requires
                v < p,
                x <= 255,
        ;
    }
}

/// Reads the little-endian integer of `n` bytes at `off`.
pub fn read_le(b: &[u8], off: usize, n: usize) -> (r: u64)
    requires
        n <= 8,
        off + n <= b@.len(),
    ensures
        r == le(b@, off as int, n as nat),
{
    let len = b.len();
    let mut v: u128 = 0;
    let mut p: u128 = 1;
    let mut i: usize = 0;
    proof {
        lemma_pow256_monotone(0, 8);
        reveal_with_fuel(pow256, 9);
        assert(pow256(8) == 0x1_0000_0000_0000_0000nat);
    }
    while i < n
        invariant
            i <= n <= 8,
            off + n <= b@.len(),
            len == b@.len(),
            v == le(b@, off as int, i as nat),
            p == pow256(i as nat),
            pow256(8) == 0x1_0000_0000_0000_0000nat,
        decreases n - i,
    {
        proof {
            lemma_le_bound(b@, off as int, i as nat);
            lemma_pow256_grows(i as nat);
            lemma_pow256_monotone((i + 1) as nat, 8);
        }
        let x = b[off + i];
        assert(v + p * (x as nat) < 256 * p) by (nonlinear_arith)
            requires
                v < p,
                x <= 255,
        ;
        v = v + p * (x as u128);
        p = p * 256;
        i = i + 1;
    }
    proof {
        lemma_le_bound(b@, off as int, n as nat);
        lemma_pow256_monotone(n as nat, 8);
    }
    v as u64
}

/// Reads the little-endian integer of 4 bytes at `off`.
pub fn read_u32_le(b: &[u8], off: usize) -> (r: u32)
    requires
        off + 4 <= b@.len(),
    ensures
        r == le(b@, off as int, 4),
{
    proof {
        lemma_le_bound(b@, off as int, 4);
        reveal_with_fuel(pow256, 5);
    }
    read_le(b, off, 4) as u32
}

/// Writes `value` as a little-endian integer of 4 bytes at `off`, leaving
/// every other byte as it was.
pub fn write_u32_le(b: &mut Vec<u8>, off: usize, value: u32)
    requires
        off + 4 <= old(b)@.len(),
    ensures
        final(b)@.len() == old(b)@.len(),
        le(final(b)@, off as int, 4) == value,
        forall|k: int|
            0 <= k < old(b)@.len() && !(off <= k < off + 4) ==> #[trigger] final(b)@[k] == old(b)@[k],
{
    let ghost start = b@;
    let len = b.len();
    let mut x: u32 = value;
    let mut i: usize = 0;
    assert(le(b@, off as int, 0) == 0 && pow256(0) == 1);
    while i < 4
        invariant
            i <= 4,
            off + 4 <= b@.len(),
            b@.len() == start.len(),
            len == b@.len(),
            le(b@, off as int, i as nat) + pow256(i as nat) * x == value,
            forall|k: int|
                0 <= k < start.len() && !(off <= k < off + i) ==> #[trigger] b@[k] == start[k],
        decreases 4 - i,
    {
        let ghost before = b@;
        let byte = (x % 256) as u8;
        b.set(off + i, byte);
        proof {
            lemma_le_frame(before, b@, off as int, i as nat);
            lemma_pow256_grows(i as nat);
            let p = pow256(i as nat);
            let xi = x as int;
            assert(p * (xi % 256) + 256 * p * (xi / 256) == p * xi) by (nonlinear_arith)
                requires
                    xi >= 0,
            ;
        }
        x = x / 256;
        i = i + 1;
    }
    proof {
        reveal_with_fuel(pow256, 5);
        let p = pow256(4);
        assert(p == 0x1_0000_0000);
        let xi = x as int;
        assert(xi == 0) by (nonlinear_arith)
            requires
                p * xi <= value,
                value < p,
                xi >= 0,
        ;
        assert(p * xi == 0) by (nonlinear_arith)
            requires
                xi == 0,
        ;
        assert(le(b@, off as int, 4) == value);
    }
}

} // verus!
