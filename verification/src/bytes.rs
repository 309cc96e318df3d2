//! Little-endian encoding and byte-range copies.

use vstd::prelude::*;

verus! {

/// The two bytes of `x`, least significant first.
pub open spec fn le16(x: u16) -> Seq<u8> {
    seq![x as u8, (x >> 8) as u8]
}

/// The four bytes of `x`, least significant first.
pub open spec fn le32(x: u32) -> Seq<u8> {
    seq![x as u8, (x >> 8) as u8, (x >> 16) as u8, (x >> 24) as u8]
}

/// The eight bytes of `x`, least significant first.
pub open spec fn le64(x: u64) -> Seq<u8> {
    seq![
        x as u8,
        (x >> 8) as u8,
        (x >> 16) as u8,
        (x >> 24) as u8,
        (x >> 32) as u8,
        (x >> 40) as u8,
        (x >> 48) as u8,
        (x >> 56) as u8,
    ]
}

/// `s` with the bytes from `off` on replaced by `d`.
pub open spec fn overwrite(s: Seq<u8>, off: int, d: Seq<u8>) -> Seq<u8> {
    Seq::new(s.len(), |i: int| if off <= i < off + d.len() { d[i - off] } else { s[i] })
}

/// `n` zero bytes.
pub open spec fn zeros(n: nat) -> Seq<u8> {
    Seq::new(n, |i: int| 0u8)
}

/// The smaller of two naturals.
pub open spec fn min_nat(a: nat, b: nat) -> nat {
    if a <= b { a } else { b }
}

/// Two integers with the same little-endian bytes are the same integer.
pub proof fn le64_injective(x: u64, y: u64)
    requires
        le64(x) == le64(y),
    ensures
        x == y,
{
    let a = le64(x);
    let b = le64(y);
    assert(a[0] == b[0] && a[1] == b[1] && a[2] == b[2] && a[3] == b[3]);
    assert(a[4] == b[4] && a[5] == b[5] && a[6] == b[6] && a[7] == b[7]);
    assert(x == y) by (bit_vector)
        requires
            x as u8 == y as u8,
            (x >> 8) as u8 == (y >> 8) as u8,
            (x >> 16) as u8 == (y >> 16) as u8,
            (x >> 24) as u8 == (y >> 24) as u8,
            (x >> 32) as u8 == (y >> 32) as u8,
            (x >> 40) as u8 == (y >> 40) as u8,
            (x >> 48) as u8 == (y >> 48) as u8,
            (x >> 56) as u8 == (y >> 56) as u8,
    ;
}

/// Append the bytes of `x` to `v`.
pub fn push_u16(v: &mut Vec<u8>, x: u16)
    ensures
        final(v)@ == old(v)@ + le16(x),
{
    v.push(x as u8);
    v.push((x >> 8) as u8);
    assert(v@ =~= old(v)@ + le16(x));
}

/// Append the bytes of `x` to `v`.
pub fn push_u32(v: &mut Vec<u8>, x: u32)
    ensures
        final(v)@ == old(v)@ + le32(x),
{
    v.push(x as u8);
    v.push((x >> 8) as u8);
    v.push((x >> 16) as u8);
    v.push((x >> 24) as u8);
    assert(v@ =~= old(v)@ + le32(x));
}

/// Append the bytes of `x` to `v`.
pub fn push_u64(v: &mut Vec<u8>, x: u64)
    ensures
        final(v)@ == old(v)@ + le64(x),
{
    v.push(x as u8);
    v.push((x >> 8) as u8);
    v.push((x >> 16) as u8);
    v.push((x >> 24) as u8);
    v.push((x >> 32) as u8);
    v.push((x >> 40) as u8);
    v.push((x >> 48) as u8);
    v.push((x >> 56) as u8);
    assert(v@ =~= old(v)@ + le64(x));
}

/// Append every byte of `src` to `v`.
pub fn push_bytes(v: &mut Vec<u8>, src: &[u8])
    ensures
        final(v)@ == old(v)@ + src@,
{
    let n: usize = src.len();
    let mut i: usize = 0;
    while i < n
        invariant
            i <= n,
            n == src@.len(),
            v@ == old(v)@ + src@.subrange(0, i as int),
        decreases n - i,
    {
        v.push(src[i]);
        assert(src@.subrange(0, i + 1) =~= src@.subrange(0, i as int).push(src@[i as int]));
        i = i + 1;
    }
    assert(src@.subrange(0, n as int) =~= src@);
}

/// The integer whose four little-endian bytes stand at `off`.
pub open spec fn word32(s: Seq<u8>, off: int) -> u32 {
    (s[off] as u32) | ((s[off + 1] as u32) << 8) | ((s[off + 2] as u32) << 16) | ((s[off
        + 3] as u32) << 24)
}

/// The integer whose eight little-endian bytes stand at `off`.
pub open spec fn word64(s: Seq<u8>, off: int) -> u64 {
    (s[off] as u64) | ((s[off + 1] as u64) << 8) | ((s[off + 2] as u64) << 16) | ((s[off
        + 3] as u64) << 24) | ((s[off + 4] as u64) << 32) | ((s[off + 5] as u64) << 40) | ((s[off
        + 6] as u64) << 48) | ((s[off + 7] as u64) << 56)
}

/// Reading eight bytes as an integer and writing its bytes gives them back.
pub proof fn le64_of_word64(s: Seq<u8>, off: int)
    requires
        0 <= off,
        off + 8 <= s.len(),
    ensures
        le64(word64(s, off)) == s.subrange(off, off + 8),
{
    let x = word64(s, off);
    let b0 = s[off];
    let b1 = s[off + 1];
    let b2 = s[off + 2];
    let b3 = s[off + 3];
    let b4 = s[off + 4];
    let b5 = s[off + 5];
    let b6 = s[off + 6];
    let b7 = s[off + 7];
    assert(x as u8 == b0 && (x >> 8) as u8 == b1 && (x >> 16) as u8 == b2 && (x >> 24) as u8 == b3
        && (x >> 32) as u8 == b4 && (x >> 40) as u8 == b5 && (x >> 48) as u8 == b6 && (x >> 56)
        as u8 == b7) by (bit_vector)
        requires
            x == (b0 as u64) | ((b1 as u64) << 8) | ((b2 as u64) << 16) | ((b3 as u64) << 24) | ((
            b4 as u64) << 32) | ((b5 as u64) << 40) | ((b6 as u64) << 48) | ((b7 as u64) << 56),
    ;
    assert(le64(x) =~= s.subrange(off, off + 8));
}

/// The integer whose little-endian bytes stand at `off`.
pub fn read_u32(b: &[u8], off: usize) -> (x: u32)
    requires
        off + 4 <= b@.len(),
    ensures
        x == word32(b@, off as int),
{
    (b[off] as u32) | ((b[off + 1] as u32) << 8) | ((b[off + 2] as u32) << 16) | ((b[off
        + 3] as u32) << 24)
}

/// The integer whose little-endian bytes stand at `off`.
pub fn read_u64(b: &[u8], off: usize) -> (x: u64)
    requires
        off + 8 <= b@.len(),
    ensures
        x == word64(b@, off as int),
{
    (b[off] as u64) | ((b[off + 1] as u64) << 8) | ((b[off + 2] as u64) << 16) | ((b[off
        + 3] as u64) << 24) | ((b[off + 4] as u64) << 32) | ((b[off + 5] as u64) << 40) | ((b[off
        + 6] as u64) << 48) | ((b[off + 7] as u64) << 56)
}

/// Copy `n` bytes of `src`, from `from` on, over `dst` at `off`.
pub fn copy_into(dst: &mut [u8], off: usize, src: &[u8], from: usize, n: usize)
    requires
        off + n <= old(dst)@.len(),
        from + n <= src@.len(),
    ensures
        final(dst)@ == overwrite(old(dst)@, off as int, src@.subrange(from as int, from + n)),
{
    let ghost d = src@.subrange(from as int, from + n);
    let dst_len: usize = dst.len();
    let src_len: usize = src.len();
    let mut i: usize = 0;
    while i < n
        invariant
            i <= n,
            dst_len == dst@.len(),
            src_len == src@.len(),
            off + n <= dst_len,
            from + n <= src_len,
            d == src@.subrange(from as int, from + n),
            dst@ == overwrite(old(dst)@, off as int, d.subrange(0, i as int)),
        decreases n - i,
    {
        dst[off + i] = src[from + i];
        assert(dst@ =~= overwrite(old(dst)@, off as int, d.subrange(0, i + 1)));
        i = i + 1;
    }
    assert(d.subrange(0, n as int) =~= d);
}

/// [`copy_into`] for a page.
pub fn copy_into_page(dst: &mut [u8; 4096], off: usize, src: &[u8], from: usize, n: usize)
    requires
        off + n <= 4096,
        from + n <= src@.len(),
    ensures
        final(dst)@ == overwrite(old(dst)@, off as int, src@.subrange(from as int, from + n)),
{
    copy_into(dst, off, src, from, n);
}

/// A fresh vector holding `n` bytes of `src` from `from` on.
pub fn slice_to_vec(src: &[u8], from: usize, n: usize) -> (v: Vec<u8>)
    requires
        from + n <= src@.len(),
    ensures
        v@ == src@.subrange(from as int, from + n),
{
    let mut v: Vec<u8> = Vec::new();
    let src_len: usize = src.len();
    let mut i: usize = 0;
    while i < n
        invariant
            i <= n,
            src_len == src@.len(),
            from + n <= src_len,
            v@ == src@.subrange(from as int, from + i),
        decreases n - i,
    {
        v.push(src[from + i]);
        assert(v@ =~= src@.subrange(from as int, from + i + 1));
        i = i + 1;
    }
    v
}

/// The page whose bytes are `s`.
pub open spec fn page_of_bytes(s: Seq<u8>) -> [u8; 4096] {
    choose|a: [u8; 4096]| a@ == s
}

/// There is an array with any given elements.
pub proof fn array_of<T, const N: usize>(s: Seq<T>, k: nat) -> (a: [T; N])
    requires
        s.len() == N,
        k <= N,
    ensures
        forall|i: int| 0 <= i < k ==> #[trigger] a@[i] == s[i],
        k == N ==> a@ == s,
    decreases k,
{
    if k == 0 {
        let a: [T; N] = vstd::pervasive::arbitrary();
        assert(N == 0 ==> a@ =~= s);
        a
    } else {
        let shorter: [T; N] = array_of(s, (k - 1) as nat);
        let a: [T; N] = vstd::array::spec_array_update(shorter, k - 1, s[k - 1]);
        assert(k == N ==> a@ =~= s);
        a
    }
}

/// The page of some bytes holds them.
pub proof fn page_of_bytes_holds(s: Seq<u8>)
    requires
        s.len() == 4096,
    ensures
        page_of_bytes(s)@ == s,
{
    let a: [u8; 4096] = array_of(s, 4096);
    assert(a@ == s);
}

/// An array is the page of its bytes.
pub proof fn page_of_bytes_is_unique(a: [u8; 4096])
    ensures
        page_of_bytes(a@) == a,
{
    assert(page_of_bytes(a@) =~= a);
}

} // verus!
