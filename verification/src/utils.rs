//! Byte-sequence helpers: XOR, zero buffers and range copies.

use vstd::prelude::*;

verus! {

/// Pointwise XOR of `a` with a prefix of `b`; the result has the length of
/// `a`.
pub open spec fn xor_spec(a: Seq<u8>, b: Seq<u8>) -> Seq<u8> {
    Seq::new(a.len(), |i: int| a[i] ^ b[i])
}

/// All-zero byte sequence of length `n`.
pub open spec fn zeros_spec(n: int) -> Seq<u8> {
    Seq::new(n as nat, |i: int| 0u8)
}

/// Pointwise XOR of `a` with a prefix of `b`.
pub fn xor(a: &[u8], b: &[u8]) -> (r: Vec<u8>)
    requires
        a@.len() <= b@.len(),
    ensures
        r@ == xor_spec(a@, b@),
{
    let mut out: Vec<u8> = Vec::new();
    let mut i: usize = 0;
    while i < a.len()
        invariant
            i <= a@.len() <= b@.len(),
            out@.len() == i,
            forall|j: int| 0 <= j < i ==> out@[j] == (a@[j] ^ b@[j]),
        decreases a@.len() - i,
    {
        out.push(a[i] ^ b[i]);
        i += 1;
    }
    assert(out@ =~= xor_spec(a@, b@));
    out
}

/// A vector of `n` zero bytes.
pub fn zero_bytes(n: usize) -> (r: Vec<u8>)
    ensures
        r@ == zeros_spec(n as int),
{
    let mut out: Vec<u8> = Vec::new();
    let mut i: usize = 0;
    while i < n
        invariant
            i <= n,
            out@.len() == i,
            forall|j: int| 0 <= j < i ==> out@[j] == 0u8,
        decreases n - i,
    {
        out.push(0u8);
        i += 1;
    }
    assert(out@ =~= zeros_spec(n as int));
    out
}

/// Appends all of `s` to `v`.
pub fn append_slice(v: &mut Vec<u8>, s: &[u8])
    ensures
        final(v)@ == old(v)@ + s@,
{
    let mut i: usize = 0;
    while i < s.len()
        invariant
            i <= s@.len(),
            v@ == old(v)@ + s@.take(i as int),
        decreases s@.len() - i,
    {
        v.push(s[i]);
        assert(old(v)@ + s@.take(i as int) + seq![s@[i as int]] =~= old(v)@ + s@.take(
            i as int + 1,
        ));
        i += 1;
    }
    assert(old(v)@ + s@.take(s@.len() as int) =~= old(v)@ + s@);
}

/// Copies `s[start..end]` into a fresh vector.
pub fn copy_subrange(s: &[u8], start: usize, end: usize) -> (r: Vec<u8>)
    requires
        start <= end <= s@.len(),
    ensures
        r@ == s@.subrange(start as int, end as int),
{
    let part = vstd::slice::slice_subrange(s, start, end);
    vstd::slice::slice_to_vec(part)
}

/// Copies a slice of length `N` into a fixed-size array.
pub fn bytes_to_array<const N: usize>(v: &[u8]) -> (r: [u8; N])
    requires
        v@.len() == N,
    ensures
        r@ == v@,
{
    let mut out: [u8; N] = [0u8; N];
    let mut i: usize = 0;
    while i < N
        invariant
            i <= N,
            v@.len() == N,
            out@.len() == N,
            forall|j: int| 0 <= j < i ==> out@[j] == v@[j],
        decreases N - i,
    {
        out[i] = v[i];
        i += 1;
    }
    assert(out@ =~= v@);
    out
}

/// Copies `s[start..start + N]` into a fixed-size array.
pub fn subrange_to_array<const N: usize>(s: &[u8], start: usize) -> (r: [u8; N])
    requires
        start + N <= s@.len(),
        s@.len() <= usize::MAX,
    ensures
        r@ == s@.subrange(start as int, start as int + N),
{
    let part = vstd::slice::slice_subrange(s, start, start + N);
    bytes_to_array(part)
}

} // verus!
