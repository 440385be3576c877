use vstd::prelude::*;
use core::ops::{Add, BitXor, Mul};

verus! {

/// Four `u32` lanes, added and multiplied lane by lane with wrap-around.
#[allow(non_camel_case_types)]
#[derive(Clone, Copy, PartialEq, Eq, Structural, Debug)]
pub struct u32x4 {
    x: u32,
    y: u32,
    z: u32,
    w: u32,
}

impl View for u32x4 {
    type V = (u32, u32, u32, u32);

    closed spec fn view(&self) -> (u32, u32, u32, u32) {
        (self.x, self.y, self.z, self.w)
    }
}

/// The sum of four lanes, wrapping around at `u32::MAX`.
pub open spec fn lanes_sum(v: (u32, u32, u32, u32)) -> u32 {
    ((v.0 as int + v.1 as int + v.2 as int + v.3 as int) % 0x1_0000_0000) as u32
}

impl u32x4 {
    /// The lanes `[x, y, z, w]`.
    pub fn from_array(inner: [u32; 4]) -> (v: Self)
        ensures
            v@ == (inner@[0], inner@[1], inner@[2], inner@[3]),
    {
        u32x4 { x: inner[0], y: inner[1], z: inner[2], w: inner[3] }
    }

    /// Four zero lanes.
    pub fn zero() -> (v: Self)
        ensures
            v@ == (0u32, 0u32, 0u32, 0u32),
    {
        u32x4 { x: 0, y: 0, z: 0, w: 0 }
    }

    /// The first lane.
    pub fn x(self) -> (r: u32)
        ensures
            r == self@.0,
    {
        self.x
    }

    /// The second lane.
    pub fn y(self) -> (r: u32)
        ensures
            r == self@.1,
    {
        self.y
    }

    /// The third lane.
    pub fn z(self) -> (r: u32)
        ensures
            r == self@.2,
    {
        self.z
    }

    /// The fourth lane.
    pub fn w(self) -> (r: u32)
        ensures
            r == self@.3,
    {
        self.w
    }

    /// Replaces the first lane.
    pub fn set_x(&mut self, v: u32)
        ensures
            final(self)@ == (v, old(self)@.1, old(self)@.2, old(self)@.3),
    {
        self.x = v;
    }

    /// Replaces the second lane.
    pub fn set_y(&mut self, v: u32)
        ensures
            final(self)@ == (old(self)@.0, v, old(self)@.2, old(self)@.3),
    {
        self.y = v;
    }

    /// Replaces the third lane.
    pub fn set_z(&mut self, v: u32)
        ensures
            final(self)@ == (old(self)@.0, old(self)@.1, v, old(self)@.3),
    {
        self.z = v;
    }

    /// Replaces the fourth lane.
    pub fn set_w(&mut self, v: u32)
        ensures
            final(self)@ == (old(self)@.0, old(self)@.1, old(self)@.2, v),
    {
        self.w = v;
    }

    /// The sum of the lanes, wrapping around.
    pub fn reduce_sum(self) -> (r: u32)
        ensures
            r == lanes_sum(self@),
    {
        let a = self.x.wrapping_add(self.y);
        let b = a.wrapping_add(self.z);
        let c = b.wrapping_add(self.w);
        assert(c == lanes_sum(self@)) by {
            assert(a == (self.x as int + self.y as int) % 0x1_0000_0000);
            assert(b == (a as int + self.z as int) % 0x1_0000_0000);
            assert(c == (b as int + self.w as int) % 0x1_0000_0000);
            lemma_sum_mod(self.x as int, self.y as int, self.z as int, self.w as int);
        }
        c
    }

    /// The lane-by-lane product, summed; all wrapping around.
    pub fn dot(self, rhs: Self) -> (r: u32)
        ensures
            r == lanes_sum(lanes_mul(self@, rhs@)),
    {
        self.mul_lanes(rhs).reduce_sum()
    }

    /// The lane-by-lane sum, wrapping around.
    pub fn add_lanes(self, rhs: Self) -> (r: Self)
        ensures
            r@ == lanes_add(self@, rhs@),
    {
        u32x4 {
            x: self.x.wrapping_add(rhs.x),
            y: self.y.wrapping_add(rhs.y),
            z: self.z.wrapping_add(rhs.z),
            w: self.w.wrapping_add(rhs.w),
        }
    }

    /// The lane-by-lane product, wrapping around.
    pub fn mul_lanes(self, rhs: Self) -> (r: Self)
        ensures
            r@ == lanes_mul(self@, rhs@),
    {
        u32x4 {
            x: self.x.wrapping_mul(rhs.x),
            y: self.y.wrapping_mul(rhs.y),
            z: self.z.wrapping_mul(rhs.z),
            w: self.w.wrapping_mul(rhs.w),
        }
    }

    /// The lane-by-lane exclusive or.
    pub fn xor_lanes(self, rhs: Self) -> (r: Self)
        ensures
            r@ == lanes_xor(self@, rhs@),
    {
        u32x4 { x: self.x ^ rhs.x, y: self.y ^ rhs.y, z: self.z ^ rhs.z, w: self.w ^ rhs.w }
    }

    /// Adds `rhs` lane by lane, in place, wrapping around.
    pub fn add_assign(&mut self, rhs: Self)
        ensures
            final(self)@ == lanes_add(old(self)@, rhs@),
    {
        *self = self.add_lanes(rhs);
    }

    /// Exclusive-ors `rhs` in lane by lane, in place.
    pub fn bitxor_assign(&mut self, rhs: Self)
        ensures
            final(self)@ == lanes_xor(old(self)@, rhs@),
    {
        *self = self.xor_lanes(rhs);
    }
}

proof fn lemma_sum_mod(a: int, b: int, c: int, d: int)
    ensures
        (((a + b) % 0x1_0000_0000 + c) % 0x1_0000_0000 + d) % 0x1_0000_0000 == (a + b + c + d) % 0x1_0000_0000,
{
    vstd::arithmetic::div_mod::lemma_add_mod_noop(a + b, c, 0x1_0000_0000);
    vstd::arithmetic::div_mod::lemma_mod_twice(a + b, 0x1_0000_0000);
    vstd::arithmetic::div_mod::lemma_add_mod_noop(a + b + c, d, 0x1_0000_0000);
    vstd::arithmetic::div_mod::lemma_mod_twice(a + b + c, 0x1_0000_0000);
    vstd::arithmetic::div_mod::lemma_add_mod_noop((a + b) % 0x1_0000_0000, c, 0x1_0000_0000);
    vstd::arithmetic::div_mod::lemma_add_mod_noop(a + b, c, 0x1_0000_0000);
    vstd::arithmetic::div_mod::lemma_add_mod_noop(((a + b) % 0x1_0000_0000 + c) % 0x1_0000_0000, d, 0x1_0000_0000);
    vstd::arithmetic::div_mod::lemma_add_mod_noop(a + b + c, d, 0x1_0000_0000);
}

/// Lane-by-lane wrapping sum.
pub open spec fn lanes_add(a: (u32, u32, u32, u32), b: (u32, u32, u32, u32)) -> (u32, u32, u32, u32) {
    (a.0.wrapping_add(b.0), a.1.wrapping_add(b.1), a.2.wrapping_add(b.2), a.3.wrapping_add(b.3))
}

/// Lane-by-lane wrapping product.
pub open spec fn lanes_mul(a: (u32, u32, u32, u32), b: (u32, u32, u32, u32)) -> (u32, u32, u32, u32) {
    (a.0.wrapping_mul(b.0), a.1.wrapping_mul(b.1), a.2.wrapping_mul(b.2), a.3.wrapping_mul(b.3))
}

/// Lane-by-lane exclusive or.
pub open spec fn lanes_xor(a: (u32, u32, u32, u32), b: (u32, u32, u32, u32)) -> (u32, u32, u32, u32) {
    (a.0 ^ b.0, a.1 ^ b.1, a.2 ^ b.2, a.3 ^ b.3)
}

impl Default for u32x4 {
    /// Four zero lanes.
    fn default() -> (v: Self)
        ensures
            v@ == (0u32, 0u32, 0u32, 0u32),
    {
        u32x4::zero()
    }
}

impl vstd::std_specs::ops::AddSpecImpl for u32x4 {
    open spec fn obeys_add_spec() -> bool {
        true
    }

    open spec fn add_req(self, rhs: u32x4) -> bool {
        true
    }

    closed spec fn add_spec(self, rhs: u32x4) -> u32x4 {
        u32x4 {
            x: self.x.wrapping_add(rhs.x),
            y: self.y.wrapping_add(rhs.y),
            z: self.z.wrapping_add(rhs.z),
            w: self.w.wrapping_add(rhs.w),
        }
    }
}

impl Add for u32x4 {
    type Output = u32x4;

    fn add(self, rhs: Self) -> (r: Self::Output)
        ensures
            r@ == lanes_add(self@, rhs@),
    {
        self.add_lanes(rhs)
    }
}

impl vstd::std_specs::ops::MulSpecImpl for u32x4 {
    open spec fn obeys_mul_spec() -> bool {
        true
    }

    open spec fn mul_req(self, rhs: u32x4) -> bool {
        true
    }

    closed spec fn mul_spec(self, rhs: u32x4) -> u32x4 {
        u32x4 {
            x: self.x.wrapping_mul(rhs.x),
            y: self.y.wrapping_mul(rhs.y),
            z: self.z.wrapping_mul(rhs.z),
            w: self.w.wrapping_mul(rhs.w),
        }
    }
}

impl Mul for u32x4 {
    type Output = u32x4;

    fn mul(self, rhs: Self) -> (r: Self::Output)
        ensures
            r@ == lanes_mul(self@, rhs@),
    {
        self.mul_lanes(rhs)
    }
}

impl vstd::std_specs::ops::BitXorSpecImpl for u32x4 {
    open spec fn obeys_bitxor_spec() -> bool {
        true
    }

    open spec fn bitxor_req(self, rhs: u32x4) -> bool {
        true
    }

    closed spec fn bitxor_spec(self, rhs: u32x4) -> u32x4 {
        u32x4 { x: self.x ^ rhs.x, y: self.y ^ rhs.y, z: self.z ^ rhs.z, w: self.w ^ rhs.w }
    }
}

impl BitXor for u32x4 {
    type Output = u32x4;

    fn bitxor(self, rhs: Self) -> (r: Self::Output)
        ensures
            r@ == lanes_xor(self@, rhs@),
    {
        self.xor_lanes(rhs)
    }
}

} // verus!
