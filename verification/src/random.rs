use vstd::prelude::*;

verus! {

/// Multiplier of the linear congruential generator.
pub const LCG_MULTIPLIER: u32 = 1664525;

/// Increment of the linear congruential generator.
pub const LCG_INCREMENT: u32 = 1013904223;

/// One step of the generator: `v * 1664525 + 1013904223` modulo `2^32`.
pub open spec fn lcg_step(v: u32) -> u32 {
    ((v as nat * LCG_MULTIPLIER as nat + LCG_INCREMENT as nat) % 0x1_0000_0000) as u32
}

/// The generator state after `steps` steps from `v`.
pub open spec fn lcg_after(v: u32, steps: nat) -> u32
    decreases steps,
{
    if steps == 0 {
        v
    } else {
        lcg_step(lcg_after(v, (steps - 1) as nat))
    }
}

/// Byte `i` (0 is the least significant) of the little-endian encoding of `v`.
pub open spec fn le_byte(v: u32, i: nat) -> u8 {
    ((v as nat / pow256(i)) % 256) as u8
}

/// `256^i`.
pub open spec fn pow256(i: nat) -> nat
    decreases i,
{
    if i == 0 {
        1
    } else {
        256 * pow256((i - 1) as nat)
    }
}

/// Byte `k` of the stream that a generator with state `value` and byte position `index` hands
/// out: the little-endian bytes of the successive states, four per state.
pub open spec fn stream_byte(value: u32, index: nat, k: nat) -> u8 {
    le_byte(lcg_after(value, (index + k) / 4), (index + k) % 4)
}

/// Byte `k` of what `r` hands out from now on.
pub open spec fn drawn_u8(r: Rng, k: nat) -> u8 {
    stream_byte(r.state(), r.position(), k)
}

/// The number that the next four bytes of `r` make, little-endian.
pub open spec fn drawn_u32(r: Rng) -> u32 {
    (drawn_u8(r, 0) as nat + 256 * drawn_u8(r, 1) as nat + 65536 * drawn_u8(r, 2) as nat
        + 16777216 * drawn_u8(r, 3) as nat) as u32
}

/// `r1` is `r0` after handing out `n` bytes.
pub open spec fn advanced_by(r0: Rng, r1: Rng, n: nat) -> bool {
    &&& r1.state() == lcg_after(r0.state(), (r0.position() + n) / 4)
    &&& r1.position() == (r0.position() + n) % 4
}

/// Stepping `a` and then `b` times is stepping `a + b` times.
pub proof fn lemma_lcg_after_add(v: u32, a: nat, b: nat)
    ensures
        lcg_after(lcg_after(v, a), b) == lcg_after(v, a + b),
    decreases b,
{
    if b > 0 {
        lemma_lcg_after_add(v, a, (b - 1) as nat);
    }
}

/// After handing out `n` bytes, byte `k` of the rest is byte `n + k` of the whole stream.
pub proof fn lemma_stream_shift(v: u32, p: nat, n: nat, k: nat)
    ensures
        stream_byte(lcg_after(v, (p + n) / 4), (p + n) % 4, k) == stream_byte(v, p, n + k),
{
    let q = (p + n) / 4;
    let r = (p + n) % 4;
    assert((r + k) / 4 + q == (p + n + k) / 4 && (r + k) % 4 == (p + n + k) % 4) by {
        vstd::arithmetic::div_mod::lemma_fundamental_div_mod((p + n) as int, 4);
        vstd::arithmetic::div_mod::lemma_hoist_over_denominator((r + k) as int, q as int, 4);
        vstd::arithmetic::div_mod::lemma_mod_multiples_vanish(q as int, (r + k) as int, 4);
    }
    lemma_lcg_after_add(v, q, (r + k) / 4);
}

/// Handing out `a` and then `b` bytes is handing out `a + b` bytes.
pub proof fn lemma_advanced_trans(r0: Rng, r1: Rng, r2: Rng, a: nat, b: nat)
    requires
        advanced_by(r0, r1, a),
        advanced_by(r1, r2, b),
    ensures
        advanced_by(r0, r2, a + b),
        forall|k: nat| #[trigger] drawn_u8(r2, k) == drawn_u8(r0, a + b + k),
        forall|k: nat| #[trigger] drawn_u8(r1, k) == drawn_u8(r0, a + k),
{
    let v = r0.state();
    let p = r0.position();
    let q1 = (p + a) / 4;
    let m1 = (p + a) % 4;
    assert((m1 + b) / 4 + q1 == (p + a + b) / 4 && (m1 + b) % 4 == (p + a + b) % 4) by {
        vstd::arithmetic::div_mod::lemma_fundamental_div_mod((p + a) as int, 4);
        vstd::arithmetic::div_mod::lemma_hoist_over_denominator((m1 + b) as int, q1 as int, 4);
        vstd::arithmetic::div_mod::lemma_mod_multiples_vanish(q1 as int, (m1 + b) as int, 4);
    }
    lemma_lcg_after_add(v, q1, (m1 + b) / 4);
    assert forall|k: nat| #[trigger] drawn_u8(r2, k) == drawn_u8(r0, a + b + k) by {
        lemma_stream_shift(v, p, a + b, k);
    }
    assert forall|k: nat| #[trigger] drawn_u8(r1, k) == drawn_u8(r0, a + k) by {
        lemma_stream_shift(v, p, a, k);
    }
}

/// A small pseudo-random generator: the little-endian bytes of the states of a linear
/// congruential generator, handed out one at a time.
#[derive(Clone, Copy, Debug)]
pub struct Rng {
    value: u32,
    index: usize,
}

impl Rng {
    /// The current generator state.
    pub closed spec fn state(self) -> u32 {
        self.value
    }

    /// How many bytes of the current state were handed out already.
    pub closed spec fn position(self) -> nat {
        self.index as nat
    }

    #[verifier::type_invariant]
    closed spec fn position_in_word(self) -> bool {
        self.index < 4
    }

    /// A generator whose state is `seed`, at the first byte.
    pub fn seed(seed: u32) -> (r: Self)
        ensures
            r.state() == seed,
            r.position() == 0,
    {
        Self { value: seed, index: 0 }
    }

    /// Fills `buf` with the next bytes of the stream.
    pub fn fill_bytes(&mut self, buf: &mut [u8])
        ensures
            final(buf)@.len() == old(buf)@.len(),
            forall|k: int|
                0 <= k < old(buf)@.len() ==> #[trigger] final(buf)@[k] == stream_byte(
                    old(self).state(),
                    old(self).position(),
                    k as nat,
                ),
            final(self).state() == lcg_after(
                old(self).state(),
                (old(self).position() + old(buf)@.len()) / 4,
            ),
            final(self).position() == (old(self).position() + old(buf)@.len()) % 4,
    {
        proof {
            use_type_invariant(&*self);
        }
        let ghost v0 = self.value;
        let ghost i0 = self.index as nat;
        let mut value = self.value;
        let mut index = self.index;
        let len = buf.len();
        let mut k: usize = 0;
        assert((i0 + 0) / 4 == 0 && (i0 + 0) % 4 == i0);
        while k < len
            invariant
                k <= len,
                len == buf@.len(),
                i0 < 4,
                index < 4,
                index as nat == (i0 + k) % 4,
                value == lcg_after(v0, ((i0 + k) / 4) as nat),
                forall|t: int| 0 <= t < k ==> #[trigger] buf@[t] == stream_byte(v0, i0, t as nat),
            decreases len - k,
        {
            buf[k] = le_byte_of(value, index);
            proof {
                lemma_quarter_step((i0 + k) as nat);
            }
            if index == 3 {
                value = lcg_next(value);
                index = 0;
            } else {
                index = index + 1;
            }
            k = k + 1;
        }
        *self = Rng { value, index };
    }

    /// The next byte of the stream.
    pub fn get_u8(&mut self) -> (r: u8)
        ensures
            r == drawn_u8(*old(self), 0),
            advanced_by(*old(self), *final(self), 1),
    {
        let mut buf = [0u8; 1];
        self.fill_bytes(&mut buf);
        buf[0]
    }

    /// The next four bytes of the stream, read as a little-endian number.
    pub fn get_u32(&mut self) -> (r: u32)
        ensures
            r == drawn_u32(*old(self)),
            advanced_by(*old(self), *final(self), 4),
    {
        proof {
            use_type_invariant(&*self);
        }
        let mut buf = [0u8; 4];
        self.fill_bytes(&mut buf);
        let b0 = buf[0] as u32;
        let b1 = buf[1] as u32;
        let b2 = buf[2] as u32;
        let b3 = buf[3] as u32;
        b0 + 256 * b1 + 65536 * b2 + 16777216 * b3
    }
}

/// Byte `index` of the little-endian encoding of `v`.
fn le_byte_of(v: u32, index: usize) -> (r: u8)
    requires
        index < 4,
    ensures
        r == le_byte(v, index as nat),
{
    let shifted = v >> ((8 * index) as u32);
    let r = (shifted & 0xFF) as u8;
    proof {
        assert(pow256(0) == 1);
        assert(pow256(1) == 256);
        assert(pow256(2) == 65536);
        assert(pow256(3) == 16777216);
        let s = (8 * index) as u32;
        assert(r == ((v >> s) & 0xFF) as u8);
        if index == 0 {
            assert(((v >> 0u32) & 0xFF) as u8 == ((v as nat / 1) % 256) as u8) by (bit_vector);
        } else if index == 1 {
            assert(((v >> 8u32) & 0xFF) as u8 == ((v / 256) % 256) as u8) by (bit_vector);
        } else if index == 2 {
            assert(((v >> 16u32) & 0xFF) as u8 == ((v / 65536) % 256) as u8) by (bit_vector);
        } else {
            assert(((v >> 24u32) & 0xFF) as u8 == ((v / 16777216) % 256) as u8) by (bit_vector);
        }
    }
    r
}

/// One step of the generator.
fn lcg_next(v: u32) -> (r: u32)
    ensures
        r == lcg_step(v),
{
    let r = v.wrapping_mul(LCG_MULTIPLIER).wrapping_add(LCG_INCREMENT);
    proof {
        let m = (v as nat * 1664525nat) % 0x1_0000_0000nat;
        assert(r as nat == (m + 1013904223) % 0x1_0000_0000) by {
            if m + 1013904223 > u32::MAX {
                assert((m + 1013904223) % 0x1_0000_0000 == m + 1013904223 - 0x1_0000_0000)
                    by (nonlinear_arith)
                    requires
                        0x1_0000_0000 <= m + 1013904223 < 2 * 0x1_0000_0000,
                ;
            } else {
                assert((m + 1013904223) % 0x1_0000_0000 == m + 1013904223) by (nonlinear_arith)
                    requires
                        0 <= m + 1013904223 < 0x1_0000_0000,
                ;
            }
        }
        vstd::arithmetic::div_mod::lemma_add_mod_noop(
            (v as nat * 1664525nat) as int,
            1013904223,
            0x1_0000_0000,
        );
    }
    r
}

/// Moving one byte further: when the position in the word is 3 the generator steps and
/// the position returns to 0, else only the position moves.
proof fn lemma_quarter_step(t: nat)
    ensures
        t % 4 == 3 ==> (t + 1) / 4 == t / 4 + 1 && (t + 1) % 4 == 0,
        t % 4 != 3 ==> (t + 1) / 4 == t / 4 && (t + 1) % 4 == t % 4 + 1,
{
}

} // verus!
