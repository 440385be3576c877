use vstd::prelude::*;
use crate::math::CheckedArith;
use crate::simd::{u32x4, lanes_xor};

verus! {

/// The four 32-bit words of a generator's state.
pub type RandomState = (u32, u32, u32, u32);

/// `v` rotated left by `k` bits, for `0 < k < 32`.
pub open spec fn rotl(v: u32, k: u32) -> u32 {
    (v << k) | (v >> ((32 - k) as u32))
}

/// The number the generator in state `s` yields next.
pub open spec fn step_output(s: RandomState) -> u32 {
    rotl(s.0.wrapping_add(s.3), 7).wrapping_add(s.0)
}

/// The state that follows `s`.
pub open spec fn step_state(s: RandomState) -> RandomState {
    let t = s.1 << 9u32;
    let z1 = s.2 ^ s.0;
    let w1 = s.3 ^ s.1;
    let y1 = s.1 ^ z1;
    let x1 = s.0 ^ w1;
    (x1, y1, z1 ^ t, rotl(w1, 11))
}

/// The `k`-th state after `s`.
pub open spec fn nth_state(s: RandomState, k: nat) -> RandomState
    decreases k,
{
    if k == 0 {
        s
    } else {
        nth_state(step_state(s), (k - 1) as nat)
    }
}

/// The `i`-th word of the jump polynomial.
pub open spec fn jump_word_spec(i: int) -> u32 {
    if i == 0 {
        0x8764000b
    } else if i == 1 {
        0xf542d2d3
    } else if i == 2 {
        0x6fa035c3
    } else {
        0x77f2db5b
    }
}

/// Whether step `k` of the jump folds the current state into the result: bit `k % 32` of
/// word `k / 32` of the jump polynomial is set.
pub open spec fn jump_takes(k: int) -> bool {
    jump_word_spec(k / 32) & (1u32 << ((k % 32) as u32)) != 0
}

/// The result of the jump from step `k` on, with state `s` and result so far `acc`.
pub open spec fn jump_from(s: RandomState, acc: RandomState, k: int) -> RandomState
    decreases 128 - k,
{
    if k >= 128 {
        acc
    } else {
        jump_from(step_state(s), if jump_takes(k) { lanes_xor(acc, s) } else { acc }, k + 1)
    }
}

/// The state after a jump from `s`.
pub open spec fn jump_state(s: RandomState) -> RandomState {
    jump_from(s, (0u32, 0u32, 0u32, 0u32), 0)
}

/// The state `s` with the entropy `point` added in: `point` goes into the first word, and
/// whenever a word's add flag (see `CheckedArith`) is set that word is cleared and its wrapped
/// sum carries on into the next word.
pub open spec fn entropy_mix(s: RandomState, point: u32) -> RandomState {
    let (x1, fx) = s.0.spec_overflowing_add(point);
    if !fx {
        (x1, s.1, s.2, s.3)
    } else {
        let (y1, fy) = s.1.spec_overflowing_add(x1);
        if !fy {
            (0u32, y1, s.2, s.3)
        } else {
            let (z1, fz) = s.2.spec_overflowing_add(y1);
            if !fz {
                (0u32, 0u32, z1, s.3)
            } else {
                (0u32, 0u32, 0u32, s.3.wrapping_add(z1))
            }
        }
    }
}

/// The sum of the four words of `s`.
pub open spec fn state_total(s: RandomState) -> int {
    s.0 + s.1 + s.2 + s.3
}

/// Mixing entropy adds it to the state and loses nothing: the words of the mixed state add up
/// to the words of `s` plus `point`, less one `2^32` when the last word that takes a sum wraps.
/// A word is cleared only when its sum carried on to the next word, which the add flag of
/// `CheckedArith` decides: set exactly when what was added is not zero and the sum does not
/// wrap. So the sum goes into the first word whose flag is clear, as `word + carried`
/// (wrapping), the words before it are cleared and those after it stay.
pub proof fn lemma_entropy_mix_adds(s: RandomState, point: u32)
    ensures
        state_total(entropy_mix(s, point)) == state_total(s) + point
            || state_total(entropy_mix(s, point)) == state_total(s) + point - 0x1_0000_0000,
        entropy_mix(s, point).0 == 0 || entropy_mix(s, point) == (s.0.wrapping_add(point), s.1, s.2, s.3),
        ({
            let x1 = s.0.wrapping_add(point);
            let y1 = s.1.wrapping_add(x1);
            let z1 = s.2.wrapping_add(y1);
            let carry_x = point != 0 && s.0 + point <= u32::MAX;
            let carry_y = x1 != 0 && s.1 + x1 <= u32::MAX;
            let carry_z = y1 != 0 && s.2 + y1 <= u32::MAX;
            &&& !carry_x ==> entropy_mix(s, point) == (x1, s.1, s.2, s.3)
            &&& carry_x && !carry_y ==> entropy_mix(s, point) == (0u32, y1, s.2, s.3)
            &&& carry_x && carry_y && !carry_z ==> entropy_mix(s, point) == (0u32, 0u32, z1, s.3)
            &&& carry_x && carry_y && carry_z ==> entropy_mix(s, point) == (0u32, 0u32, 0u32, s.3.wrapping_add(z1))
        }),
{
    let x1 = s.0.wrapping_add(point);
    let y1 = s.1.wrapping_add(x1);
    let z1 = s.2.wrapping_add(y1);
    assert(s.0.spec_overflowing_add(point).1 <==> (point != 0 && s.0 + point <= u32::MAX));
    assert(s.1.spec_overflowing_add(x1).1 <==> (x1 != 0 && s.1 + x1 <= u32::MAX));
    assert(s.2.spec_overflowing_add(y1).1 <==> (y1 != 0 && s.2 + y1 <= u32::MAX));
}

/// The word `v` rotated left by `k` bits.
pub fn rotate_left(v: u32, k: u32) -> (r: u32)
    requires
        0 < k < 32,
    ensures
        r == rotl(v, k),
{
    (v << k) | (v >> (32 - k))
}

/// The `i`-th word of the jump polynomial.
pub fn jump_word(i: usize) -> (r: u32)
    ensures
        r == jump_word_spec(i as int),
{
    if i == 0 {
        0x8764000b
    } else if i == 1 {
        0xf542d2d3
    } else if i == 2 {
        0x6fa035c3
    } else {
        0x77f2db5b
    }
}

/// A xoshiro128-style pseudo-random generator with 128 bits of state.
#[derive(Clone, Copy)]
pub struct Random {
    inner: u32x4,
}

impl View for Random {
    type V = RandomState;

    closed spec fn view(&self) -> RandomState {
        self.inner@
    }
}

impl Random {
    /// A generator whose state is `seed`.
    pub fn from_seed(seed: [u32; 4]) -> (r: Self)
        ensures
            r@ == (seed@[0], seed@[1], seed@[2], seed@[3]),
    {
        Random { inner: u32x4::from_array(seed) }
    }

    /// A generator whose state is `seed` with the entropy `point` applied.
    pub fn from_entropy(seed: [u32; 4], point: u32) -> (r: Self)
        ensures
            r@ == jump_state(entropy_mix((seed@[0], seed@[1], seed@[2], seed@[3]), point)),
    {
        let mut this = Self::from_seed(seed);
        this.apply_entropy(point);
        this
    }

    /// Adds the entropy `point` into the state, then jumps.
    pub fn apply_entropy(&mut self, point: u32)
        ensures
            final(self)@ == jump_state(entropy_mix(old(self)@, point)),
    {
        match CheckedArith::overflowing_add(self.inner.x(), point) {
            (x, false) => self.inner.set_x(x),
            (point, true) => {
                self.inner.set_x(0);
                match CheckedArith::overflowing_add(self.inner.y(), point) {
                    (y, false) => self.inner.set_y(y),
                    (point, true) => {
                        self.inner.set_y(0);
                        match CheckedArith::overflowing_add(self.inner.z(), point) {
                            (z, false) => self.inner.set_z(z),
                            (point, true) => {
                                self.inner.set_z(0);
                                let w = self.inner.w().wrapping_add(point);
                                self.inner.set_w(w);
                            },
                        }
                    },
                }
            },
        }
        self.jump();
    }

    /// Jumps ahead by the xoshiro128 jump polynomial, which stands for 2^64 calls of
    /// `next_u32`: the new state is the exclusive or of those of the 128 states met while
    /// stepping whose bit of the polynomial is set.
    pub fn jump(&mut self)
        ensures
            final(self)@ == jump_state(old(self)@),
    {
        let mut result = u32x4::zero();
        let mut i: usize = 0;
        while i < 4
            invariant
                i <= 4,
                jump_from(self@, result@, 32 * (i as int)) == jump_state(old(self)@),
            decreases 4 - i,
        {
            let j = jump_word(i);
            let mut b: u32 = 0;
            while b < 32
                invariant
                    i < 4,
                    b <= 32,
                    j == jump_word_spec(i as int),
                    jump_from(self@, result@, 32 * (i as int) + (b as int)) == jump_state(old(self)@),
                decreases 32 - b,
            {
                let ghost k: int = 32 * (i as int) + (b as int);
                assert(k / 32 == i && k % 32 == b);
                if j & (1u32 << b) != 0 {
                    result.bitxor_assign(self.inner);
                }
                let _ = self.next_u32();
                b = b + 1;
            }
            i = i + 1;
        }
        self.inner = result;
    }

    /// The next number, stepping the state.
    pub fn next_u32(&mut self) -> (r: u32)
        ensures
            r == step_output(old(self)@),
            final(self)@ == step_state(old(self)@),
    {
        let sum = self.inner.x().wrapping_add(self.inner.w());
        let result = rotate_left(sum, 7).wrapping_add(self.inner.x());
        let t = self.inner.y() << 9u32;
        self.inner.set_z(self.inner.z() ^ self.inner.x());
        self.inner.set_w(self.inner.w() ^ self.inner.y());
        self.inner.set_y(self.inner.y() ^ self.inner.z());
        self.inner.set_x(self.inner.x() ^ self.inner.w());
        self.inner.set_z(self.inner.z() ^ t);
        let w = rotate_left(self.inner.w(), 11);
        self.inner.set_w(w);
        result
    }

    /// A coin flip: whether the next number's top bit is set.
    pub fn next_bool(&mut self) -> (r: bool)
        ensures
            r == (step_output(old(self)@) >= 0x8000_0000),
            final(self)@ == step_state(old(self)@),
    {
        let v = self.next_u32();
        assert((v as i32) < 0 <==> v >= 0x8000_0000u32) by (bit_vector);
        (v as i32) < 0
    }

    /// The low 8 bits of the next number.
    pub fn next_u8(&mut self) -> (r: u8)
        ensures
            r == step_output(old(self)@) % 256,
            final(self)@ == step_state(old(self)@),
    {
        let v = self.next_u32();
        assert(v as u8 == v % 256) by (bit_vector);
        v as u8
    }

    /// The low 16 bits of the next number.
    pub fn next_u16(&mut self) -> (r: u16)
        ensures
            r == step_output(old(self)@) % 65536,
            final(self)@ == step_state(old(self)@),
    {
        let v = self.next_u32();
        assert(v as u16 == v % 65536) by (bit_vector);
        v as u16
    }

    /// Two numbers joined: the first is the high half, the second the low half.
    pub fn next_u64(&mut self) -> (r: u64)
        ensures
            r == step_output(old(self)@) as int * 0x1_0000_0000 + step_output(step_state(old(self)@)) as int,
            final(self)@ == step_state(step_state(old(self)@)),
    {
        let hi = self.next_u32();
        let lo = self.next_u32();
        let h = hi as u64;
        let l = lo as u64;
        assert((h << 32u64) | l == h * 0x1_0000_0000 + l) by (bit_vector)
            requires
                h <= 0xffff_ffff,
                l <= 0xffff_ffff,
        ;
        (h << 32u64) | l
    }
}

} // verus!
