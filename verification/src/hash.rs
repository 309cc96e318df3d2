//! XXH64, used to fingerprint device state and guest memory.

use vstd::prelude::*;

use crate::bytes;
use crate::bytes::{read_u32, read_u64};

verus! {

pub const XXH64_PRIME_1: u64 = 0x9E37_79B1_85EB_CA87;

pub const XXH64_PRIME_2: u64 = 0xC2B2_AE3D_27D4_EB4F;

pub const XXH64_PRIME_3: u64 = 0x1656_67B1_9E37_79F9;

pub const XXH64_PRIME_4: u64 = 0x85EB_CA77_C2B2_AE63;

pub const XXH64_PRIME_5: u64 = 0x27D4_EB2F_1656_67C5;

/// `x` rotated left by `r` bits.
pub open spec fn rotl(x: u64, r: u64) -> u64 {
    (x << r) | (x >> ((64 - r) as u64))
}

fn rotate(x: u64, r: u64) -> (y: u64)
    requires
        0 < r < 64,
    ensures
        y == rotl(x, r),
{
    (x << r) | (x >> (64 - r))
}

/// One accumulator step over an eight-byte lane.
#[verifier::opaque]
pub open spec fn xxh_round(acc: u64, lane: u64) -> u64 {
    rotl(acc.wrapping_add(lane.wrapping_mul(XXH64_PRIME_2)), 31).wrapping_mul(XXH64_PRIME_1)
}

/// Fold one accumulator into the hash.
pub open spec fn xxh_merge(acc: u64, v: u64) -> u64 {
    (acc ^ xxh_round(0, v)).wrapping_mul(XXH64_PRIME_1).wrapping_add(XXH64_PRIME_4)
}

/// The four accumulators after the first `n` 32-byte stripes of `s`.
#[verifier::opaque]
pub open spec fn xxh_lanes(s: Seq<u8>, n: nat) -> (u64, u64, u64, u64)
    decreases n,
{
    if n == 0 {
        (
            XXH64_PRIME_1.wrapping_add(XXH64_PRIME_2),
            XXH64_PRIME_2,
            0,
            0u64.wrapping_sub(XXH64_PRIME_1),
        )
    } else {
        let (a, b, c, d) = xxh_lanes(s, (n - 1) as nat);
        let at = 32 * (n - 1);
        (
            xxh_round(a, bytes::word64(s, at)),
            xxh_round(b, bytes::word64(s, at + 8)),
            xxh_round(c, bytes::word64(s, at + 16)),
            xxh_round(d, bytes::word64(s, at + 24)),
        )
    }
}

/// The hash before its tail is consumed.
pub open spec fn xxh_start(s: Seq<u8>) -> u64 {
    let base = if s.len() >= 32 {
        let (a, b, c, d) = xxh_lanes(s, s.len() / 32);
        let h = rotl(a, 1).wrapping_add(rotl(b, 7)).wrapping_add(rotl(c, 12)).wrapping_add(
            rotl(d, 18),
        );
        xxh_merge(xxh_merge(xxh_merge(xxh_merge(h, a), b), c), d)
    } else {
        XXH64_PRIME_5
    };
    base.wrapping_add((s.len() % 0x1_0000_0000_0000_0000) as u64)
}

/// Consume the tail of `t` from `off` on: eight bytes at a time, then four,
/// then one.
pub open spec fn xxh_tail(h: u64, t: Seq<u8>, off: int) -> u64
    decreases t.len() - off,
{
    if off >= t.len() {
        h
    } else if off + 8 <= t.len() {
        let k = rotl(h ^ xxh_round(0, bytes::word64(t, off)), 27).wrapping_mul(XXH64_PRIME_1).wrapping_add(
            XXH64_PRIME_4,
        );
        xxh_tail(k, t, off + 8)
    } else if off + 4 <= t.len() {
        let k = rotl(h ^ (bytes::word32(t, off) as u64).wrapping_mul(XXH64_PRIME_1), 23).wrapping_mul(
            XXH64_PRIME_2,
        ).wrapping_add(XXH64_PRIME_3);
        xxh_tail(k, t, off + 4)
    } else {
        let k = rotl(h ^ (t[off] as u64).wrapping_mul(XXH64_PRIME_5), 11).wrapping_mul(
            XXH64_PRIME_1,
        );
        xxh_tail(k, t, off + 1)
    }
}

/// The final mixing steps.
pub open spec fn xxh_avalanche(h: u64) -> u64 {
    let a = (h ^ (h >> 33)).wrapping_mul(XXH64_PRIME_2);
    let b = (a ^ (a >> 29)).wrapping_mul(XXH64_PRIME_3);
    b ^ (b >> 32)
}

/// XXH64 of `s` with seed zero.
#[verifier::opaque]
pub open spec fn xxh64(s: Seq<u8>) -> u64 {
    let tail = s.subrange((s.len() / 32 * 32) as int, s.len() as int);
    xxh_avalanche(xxh_tail(xxh_start(s), tail, 0))
}

/// The accumulators depend only on the stripes they have consumed.
proof fn lemma_lanes_prefix(s: Seq<u8>, t: Seq<u8>, n: nat)
    requires
        32 * n <= s.len(),
        s.len() <= t.len(),
        forall|i: int| 0 <= i < s.len() ==> s[i] == t[i],
    ensures
        xxh_lanes(s, n) == xxh_lanes(t, n),
    decreases n,
{
    reveal_with_fuel(xxh_lanes, 2);
    if n > 0 {
        lemma_lanes_prefix(s, t, (n - 1) as nat);
    }
}

/// Equal bytes read as equal lanes.
proof fn lemma_word64_eq(s: Seq<u8>, i: int, t: Seq<u8>, j: int)
    requires
        forall|k: int| 0 <= k < 8 ==> #[trigger] s[i + k] == t[j + k],
    ensures
        bytes::word64(s, i) == bytes::word64(t, j),
{
    assert(s[i + 0] == t[j + 0]);
    assert(s[i + 1] == t[j + 1]);
    assert(s[i + 2] == t[j + 2]);
    assert(s[i + 3] == t[j + 3]);
    assert(s[i + 4] == t[j + 4]);
    assert(s[i + 5] == t[j + 5]);
    assert(s[i + 6] == t[j + 6]);
    assert(s[i + 7] == t[j + 7]);
}

/// Absorbing the stripe held in `buf` gives the next accumulators.
proof fn lemma_absorb(input: Seq<u8>, n: nat, buf: Seq<u8>)
    requires
        input.len() == 32 * (n + 1),
        buf.len() == 32,
        forall|i: int| 0 <= i < 32 ==> buf[i] == input[32 * n + i],
    ensures
        ({
            let (a, b, c, d) = xxh_lanes(input, n);
            xxh_lanes(input, n + 1) == (
                xxh_round(a, bytes::word64(buf, 0)),
                xxh_round(b, bytes::word64(buf, 8)),
                xxh_round(c, bytes::word64(buf, 16)),
                xxh_round(d, bytes::word64(buf, 24)),
            )
        }),
{
    reveal_with_fuel(xxh_lanes, 2);
    let at = (32 * n) as int;
    assert forall|k: int| 0 <= k < 8 implies #[trigger] buf[0 + k] == input[at + k] by {}
    lemma_word64_eq(buf, 0, input, at);
    assert forall|k: int| 0 <= k < 8 implies #[trigger] buf[8 + k] == input[at + 8 + k] by {
        assert(buf[8 + k] == input[32 * n + (8 + k)]);
    }
    lemma_word64_eq(buf, 8, input, at + 8);
    assert forall|k: int| 0 <= k < 8 implies #[trigger] buf[16 + k] == input[at + 16 + k] by {
        assert(buf[16 + k] == input[32 * n + (16 + k)]);
    }
    lemma_word64_eq(buf, 16, input, at + 16);
    assert forall|k: int| 0 <= k < 8 implies #[trigger] buf[24 + k] == input[at + 24 + k] by {
        assert(buf[24 + k] == input[32 * n + (24 + k)]);
    }
    lemma_word64_eq(buf, 24, input, at + 24);
}

/// Streaming XXH64 with seed zero.
pub struct Xxh64Hasher {
    a: u64,
    b: u64,
    c: u64,
    d: u64,
    buf: [u8; 32],
    buf_len: usize,
    total: u64,
    long: bool,
    input: Ghost<Seq<u8>>,
}

impl View for Xxh64Hasher {
    type V = Seq<u8>;

    /// Everything written so far.
    closed spec fn view(&self) -> Seq<u8> {
        self.input@
    }
}

impl Xxh64Hasher {
    /// The accumulators, the partial stripe and the length match the input.
    pub closed spec fn wf(&self) -> bool {
        let n = self.input@.len() / 32;
        &&& self.buf_len < 32
        &&& self.input@.len() == 32 * n + self.buf_len
        &&& (self.a, self.b, self.c, self.d) == xxh_lanes(self.input@, n)
        &&& forall|i: int| 0 <= i < self.buf_len ==> self.buf@[i] == self.input@[32 * n + i]
        &&& self.long == (self.input@.len() >= 32)
        &&& self.total == self.input@.len() % 0x1_0000_0000_0000_0000
    }

    /// A hasher that has seen nothing.
    pub fn new() -> (r: Self)
        ensures
            r.wf(),
            r@ == Seq::<u8>::empty(),
    {
        reveal_with_fuel(xxh_lanes, 1);
        Xxh64Hasher {
            a: XXH64_PRIME_1.wrapping_add(XXH64_PRIME_2),
            b: XXH64_PRIME_2,
            c: 0,
            d: 0u64.wrapping_sub(XXH64_PRIME_1),
            buf: [0u8; 32],
            buf_len: 0,
            total: 0,
            long: false,
            input: Ghost(Seq::empty()),
        }
    }

    /// Feed one byte.
    pub fn write_u8(&mut self, x: u8)
        requires
            old(self).wf(),
        ensures
            final(self).wf(),
            final(self)@ == old(self)@.push(x),
    {
        let ghost before = self.input@;
        let ghost after = self.input@.push(x);
        let ghost n = before.len() / 32;
        let at: usize = self.buf_len;
        self.buf[at] = x;
        self.total = self.total.wrapping_add(1);
        self.input = Ghost(after);
        proof {
            lemma_lanes_prefix(before, after, n);
        }
        if at + 1 < 32 {
            self.buf_len = at + 1;
        } else {
            let lane_a: u64 = read_u64(&self.buf, 0);
            let lane_b: u64 = read_u64(&self.buf, 8);
            let lane_c: u64 = read_u64(&self.buf, 16);
            let lane_d: u64 = read_u64(&self.buf, 24);
            proof {
                lemma_absorb(after, n, self.buf@);
            }
            self.a = round(self.a, lane_a);
            self.b = round(self.b, lane_b);
            self.c = round(self.c, lane_c);
            self.d = round(self.d, lane_d);
            self.buf_len = 0;
            self.long = true;
            assert(after.len() / 32 == n + 1);
        }
    }

    /// Feed an integer, least significant byte first.
    pub fn write_u64(&mut self, x: u64)
        requires
            old(self).wf(),
        ensures
            final(self).wf(),
            final(self)@ == old(self)@ + bytes::le64(x),
    {
        self.write_u8(x as u8);
        self.write_u8((x >> 8) as u8);
        self.write_u8((x >> 16) as u8);
        self.write_u8((x >> 24) as u8);
        self.write_u8((x >> 32) as u8);
        self.write_u8((x >> 40) as u8);
        self.write_u8((x >> 48) as u8);
        self.write_u8((x >> 56) as u8);
        assert(self@ =~= old(self)@ + bytes::le64(x));
    }

    /// Feed every byte of `b`.
    pub fn write_bytes(&mut self, b: &[u8])
        requires
            old(self).wf(),
        ensures
            final(self).wf(),
            final(self)@ == old(self)@ + b@,
    {
        let n: usize = b.len();
        let mut i: usize = 0;
        while i < n
            invariant
                i <= n,
                n == b@.len(),
                self.wf(),
                self@ == old(self)@ + b@.subrange(0, i as int),
            decreases n - i,
        {
            self.write_u8(b[i]);
            assert(b@.subrange(0, i + 1) =~= b@.subrange(0, i as int).push(b@[i as int]));
            assert(self@ =~= old(self)@ + b@.subrange(0, i + 1));
            i = i + 1;
        }
        assert(b@.subrange(0, n as int) =~= b@);
    }

    /// The hash of everything written so far.
    pub fn finish(&self) -> (h: u64)
        requires
            self.wf(),
        ensures
            h == xxh64(self@),
    {
        let ghost s = self.input@;
        let ghost tail = s.subrange((s.len() / 32 * 32) as int, s.len() as int);
        let mut h: u64 = XXH64_PRIME_5;
        if self.long {
            h = rotate(self.a, 1).wrapping_add(rotate(self.b, 7)).wrapping_add(
                rotate(self.c, 12),
            ).wrapping_add(rotate(self.d, 18));
            h = merge(h, self.a);
            h = merge(h, self.b);
            h = merge(h, self.c);
            h = merge(h, self.d);
        }
        h = h.wrapping_add(self.total);
        assert(h == xxh_start(s));
        let len: usize = self.buf_len;
        let mut off: usize = 0;
        assert(tail.len() == len);
        assert(forall|i: int| 0 <= i < len ==> self.buf@[i] == tail[i]);
        while off < len
            invariant
                off <= len <= 32,
                len == self.buf_len,
                tail.len() == len,
                forall|i: int| 0 <= i < len ==> self.buf@[i] == tail[i],
                xxh_tail(h, tail, off as int) == xxh_tail(xxh_start(s), tail, 0),
            decreases len - off,
        {
            if off + 8 <= len {
                let lane: u64 = read_u64(&self.buf, off);
                assert(lane == bytes::word64(tail, off as int));
                h = rotate(h ^ round(0, lane), 27).wrapping_mul(XXH64_PRIME_1).wrapping_add(
                    XXH64_PRIME_4,
                );
                off = off + 8;
            } else if off + 4 <= len {
                let lane: u32 = read_u32(&self.buf, off);
                assert(lane == bytes::word32(tail, off as int));
                h = rotate(h ^ (lane as u64).wrapping_mul(XXH64_PRIME_1), 23).wrapping_mul(
                    XXH64_PRIME_2,
                ).wrapping_add(XXH64_PRIME_3);
                off = off + 4;
            } else {
                let byte: u8 = self.buf[off];
                h = rotate(h ^ (byte as u64).wrapping_mul(XXH64_PRIME_5), 11).wrapping_mul(
                    XXH64_PRIME_1,
                );
                off = off + 1;
            }
        }
        proof {
            reveal(xxh64);
        }
        let a: u64 = (h ^ (h >> 33)).wrapping_mul(XXH64_PRIME_2);
        let b: u64 = (a ^ (a >> 29)).wrapping_mul(XXH64_PRIME_3);
        b ^ (b >> 32)
    }
}

fn round(acc: u64, lane: u64) -> (r: u64)
    ensures
        r == xxh_round(acc, lane),
{
    reveal(xxh_round);
    rotate(acc.wrapping_add(lane.wrapping_mul(XXH64_PRIME_2)), 31).wrapping_mul(XXH64_PRIME_1)
}

fn merge(acc: u64, v: u64) -> (r: u64)
    ensures
        r == xxh_merge(acc, v),
{
    (acc ^ round(0, v)).wrapping_mul(XXH64_PRIME_1).wrapping_add(XXH64_PRIME_4)
}

/// State that can be fingerprinted for run-vs-run comparison.
pub trait StateHash {
    /// The bytes the fingerprint covers.
    spec fn hash_input(&self) -> Seq<u8>;

    /// The fingerprint.
    fn state_hash(&self) -> (h: u64)
        ensures
            h == xxh64(self.hash_input()),
    ;
}

} // verus!
