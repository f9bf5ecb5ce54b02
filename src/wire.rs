//! Little-endian byte encoding shared by the fixed-layout wire structures.

use vstd::prelude::*;

verus! {

/// The `n` low-order bytes of `v`, least significant first.
pub open spec fn le_bytes(v: nat, n: nat) -> Seq<u8>
    decreases n,
{
    if n == 0 {
        seq![]
    } else {
        seq![(v % 256) as u8] + le_bytes(v / 256, (n - 1) as nat)
    }
}

/// `n` zero bytes.
pub open spec fn zeros(n: nat) -> Seq<u8> {
    Seq::new(n, |_i: int| 0u8)
}

/// Appends the `n` low-order bytes of `v` to `out`, least significant first.
pub fn push_le(out: &mut Vec<u8>, v: u64, n: usize)
    requires
        n <= 8,
    ensures
        final(out)@ == old(out)@ + le_bytes(v as nat, n as nat),
{
    let mut x: u64 = v;
    let mut i: usize = 0;
    while i < n
        invariant
            i <= n,
            old(out)@ + le_bytes(v as nat, n as nat) == out@ + le_bytes(x as nat, (n - i) as nat),
        decreases n - i,
    {
        let ghost before = out@;
        out.push((x % 256) as u8);
        assert(le_bytes(x as nat, (n - i) as nat) == seq![(x % 256) as u8] + le_bytes(
            (x / 256) as nat,
            (n - i - 1) as nat,
        ));
        assert(out@ + le_bytes((x / 256) as nat, (n - i - 1) as nat) =~= before + le_bytes(
            x as nat,
            (n - i) as nat,
        ));
        x = x / 256;
        i = i + 1;
    }
    assert(le_bytes(x as nat, 0) =~= seq![]);
    assert(out@ =~= out@ + le_bytes(x as nat, 0));
}

/// Appends `n` zero bytes to `out`.
pub fn push_zeros(out: &mut Vec<u8>, n: usize)
    ensures
        final(out)@ == old(out)@ + zeros(n as nat),
{
    let mut i: usize = 0;
    while i < n
        invariant
            i <= n,
            out@ == old(out)@ + zeros(i as nat),
        decreases n - i,
    {
        out.push(0u8);
        i = i + 1;
        assert(out@ =~= old(out)@ + zeros(i as nat));
    }
}

/// Appends every byte of `bytes` to `out`.
pub fn push_all(out: &mut Vec<u8>, bytes: &[u8])
    ensures
        final(out)@ == old(out)@ + bytes@,
{
    let mut i: usize = 0;
    while i < bytes.len()
        invariant
            i <= bytes@.len(),
            out@ == old(out)@ + bytes@.subrange(0, i as int),
        decreases bytes@.len() - i,
    {
        out.push(bytes[i]);
        i = i + 1;
        assert(out@ =~= old(out)@ + bytes@.subrange(0, i as int));
    }
    assert(bytes@.subrange(0, i as int) =~= bytes@);
}


/// The number whose little-endian bytes are `s`.
pub open spec fn from_le(s: Seq<u8>) -> nat
    decreases s.len(),
{
    if s.len() == 0 {
        0
    } else {
        s[0] as nat + 256 * from_le(s.drop_first())
    }
}

/// Reads the little-endian number held in `bytes[at..at + n]`.
pub fn read_le(bytes: &[u8], at: usize, n: usize) -> (r: u64)
    requires
        n <= 8,
        at + n <= bytes@.len(),
    ensures
        r as nat == from_le(bytes@.subrange(at as int, at + n)),
{
    let ghost s = bytes@.subrange(at as int, at + n);
    let mut acc: u64 = 0;
    let mut i: usize = n;
    proof {
        assert(s.subrange(n as int, n as int) =~= seq![]);
    }
    while i > 0
        invariant
            i <= n <= 8,
            at + n <= bytes.len(),
            s == bytes@.subrange(at as int, at + n),
            acc as nat == from_le(s.subrange(i as int, n as int)),
            acc < pow256((n - i) as nat),
        decreases i,
    {
        let ghost tail = s.subrange(i as int, n as int);
        let ghost longer = s.subrange(i - 1, n as int);
        assert(longer.drop_first() =~= tail);
        assert(longer[0] == bytes@[at + i - 1]);
        proof {
            lemma_pow256_step((n - i) as nat);
            lemma_pow256_mono((n - i) as nat, 7);
            reveal_with_fuel(pow256, 8);
        }
        let b = bytes[at + (i - 1)];
        assert(acc * 256 + b < pow256((n - i + 1) as nat)) by (nonlinear_arith)
            requires
                acc < pow256((n - i) as nat),
                b < 256,
                pow256((n - i + 1) as nat) == 256 * pow256((n - i) as nat),
        ;
        acc = acc * 256 + b as u64;
        i = i - 1;
    }
    assert(s.subrange(0, n as int) =~= s);
    acc
}

/// 256 to the power `k`.
pub open spec fn pow256(k: nat) -> nat
    decreases k,
{
    if k == 0 {
        1
    } else {
        256 * pow256((k - 1) as nat)
    }
}

proof fn lemma_pow256_step(k: nat)
    ensures
        pow256(k + 1) == 256 * pow256(k),
{
}

proof fn lemma_pow256_mono(a: nat, b: nat)
    requires
        a <= b,
    ensures
        pow256(a) <= pow256(b),
    decreases b,
{
    if a < b {
        lemma_pow256_mono(a, (b - 1) as nat);
    }
}


/// `s` with `part` written over it from index `at`.
pub open spec fn overwrite(s: Seq<u8>, at: int, part: Seq<u8>) -> Seq<u8> {
    s.subrange(0, at) + part + s.subrange(at + part.len(), s.len() as int)
}

/// Writes the 8 little-endian bytes of `v` into `buf` from index `at`.
pub fn write_le(buf: &mut Vec<u8>, at: usize, v: u64)
    requires
        at + 8 <= old(buf)@.len(),
    ensures
        final(buf)@ == overwrite(old(buf)@, at as int, le_bytes(v as nat, 8)),
{
    let ghost orig = buf@;
    let ghost mut w: Seq<u8> = seq![];
    let mut x: u64 = v;
    let mut k: usize = 0;
    while k < 8
        invariant
            k <= 8,
            at + 8 <= orig.len(),
            buf@.len() == orig.len(),
            at + 8 <= buf.len(),
            w.len() == k,
            w + le_bytes(x as nat, (8 - k) as nat) == le_bytes(v as nat, 8),
            buf@ == orig.subrange(0, at as int) + w + orig.subrange(at + k, orig.len() as int),
        decreases 8 - k,
    {
        let b = (x % 256) as u8;
        assert(le_bytes(x as nat, (8 - k) as nat) == seq![b] + le_bytes(
            (x / 256) as nat,
            (8 - k - 1) as nat,
        ));
        buf.set(at + k, b);
        proof {
            assert(w.push(b) + le_bytes((x / 256) as nat, (8 - k - 1) as nat) =~= w + le_bytes(
                x as nat,
                (8 - k) as nat,
            ));
            w = w.push(b);
        }
        assert(buf@ =~= orig.subrange(0, at as int) + w + orig.subrange(
            at + k + 1,
            orig.len() as int,
        ));
        x = x / 256;
        k = k + 1;
    }
    assert(w =~= w + le_bytes(x as nat, 0));
}

/// Copies the first `n` bytes of `src` into `buf` from index `at`.
pub fn copy_into(buf: &mut Vec<u8>, at: usize, src: &[u8], n: usize)
    requires
        n <= src@.len(),
        at + n <= old(buf)@.len(),
    ensures
        final(buf)@ == overwrite(old(buf)@, at as int, src@.subrange(0, n as int)),
{
    let ghost orig = buf@;
    let mut k: usize = 0;
    while k < n
        invariant
            k <= n <= src@.len(),
            at + n <= orig.len(),
            at + n <= buf.len(),
            buf@ == orig.subrange(0, at as int) + src@.subrange(0, k as int) + orig.subrange(
                at + k,
                orig.len() as int,
            ),
        decreases n - k,
    {
        buf.set(at + k, src[k]);
        k = k + 1;
        assert(buf@ =~= orig.subrange(0, at as int) + src@.subrange(0, k as int) + orig.subrange(
            at + k,
            orig.len() as int,
        ));
    }
}

/// The `n` bytes of `buf` from index `at`.
pub fn copy_out(buf: &[u8], at: usize, n: usize) -> (r: Vec<u8>)
    requires
        at + n <= buf@.len(),
    ensures
        r@ == buf@.subrange(at as int, at + n),
{
    let mut out: Vec<u8> = Vec::new();
    let mut k: usize = 0;
    while k < n
        invariant
            k <= n,
            at + n <= buf.len(),
            out@ == buf@.subrange(at as int, at + k),
        decreases n - k,
    {
        out.push(buf[at + k]);
        k = k + 1;
        assert(out@ =~= buf@.subrange(at as int, at + k));
    }
    out
}


pub proof fn lemma_le_bytes_len(v: nat, n: nat)
    ensures
        le_bytes(v, n).len() == n,
    decreases n,
{
    if n > 0 {
        lemma_le_bytes_len(v / 256, (n - 1) as nat);
    }
}

} // verus!
