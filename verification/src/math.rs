use vstd::prelude::*;

verus! {

/// Addition that reports, next to the wrapped sum, the flag the GPU code checks: whether the
/// wrapped sum, read as an unsigned number, is greater than the left operand read the same way.
pub trait CheckedArith: Sized {
    /// The wrapped sum and the flag.
    spec fn spec_overflowing_add(self, rhs: Self) -> (Self, bool);

    /// The wrapped sum and the flag.
    fn overflowing_add(self, rhs: Self) -> (r: (Self, bool))
        ensures
            r == self.spec_overflowing_add(rhs);

    /// The wrapped sum when the flag is clear, `None` when it is set.
    fn checked_add(self, rhs: Self) -> (r: Option<Self>)
        ensures
            r == match self.spec_overflowing_add(rhs) {
                (_, true) => None,
                (x, false) => Some(x),
            },
    {
        match self.overflowing_add(rhs) {
            (_, true) => None,
            (x, _) => Some(x),
        }
    }
}

impl CheckedArith for u8 {
    open spec fn spec_overflowing_add(self, rhs: u8) -> (u8, bool) {
        (self.wrapping_add(rhs), self.wrapping_add(rhs) > self)
    }

    fn overflowing_add(self, rhs: u8) -> (r: (u8, bool)) {
        let result = self.wrapping_add(rhs);
        (result, result > self)
    }
}

impl CheckedArith for u16 {
    open spec fn spec_overflowing_add(self, rhs: u16) -> (u16, bool) {
        (self.wrapping_add(rhs), self.wrapping_add(rhs) > self)
    }

    fn overflowing_add(self, rhs: u16) -> (r: (u16, bool)) {
        let result = self.wrapping_add(rhs);
        (result, result > self)
    }
}

impl CheckedArith for u32 {
    open spec fn spec_overflowing_add(self, rhs: u32) -> (u32, bool) {
        (self.wrapping_add(rhs), self.wrapping_add(rhs) > self)
    }

    fn overflowing_add(self, rhs: u32) -> (r: (u32, bool)) {
        let result = self.wrapping_add(rhs);
        (result, result > self)
    }
}

impl CheckedArith for i8 {
    open spec fn spec_overflowing_add(self, rhs: i8) -> (i8, bool) {
        (self.wrapping_add(rhs), (self.wrapping_add(rhs) as u8) > (self as u8))
    }

    fn overflowing_add(self, rhs: i8) -> (r: (i8, bool)) {
        let result = self.wrapping_add(rhs);
        (result, (result as u8) > (self as u8))
    }
}

impl CheckedArith for i16 {
    open spec fn spec_overflowing_add(self, rhs: i16) -> (i16, bool) {
        (self.wrapping_add(rhs), (self.wrapping_add(rhs) as u16) > (self as u16))
    }

    fn overflowing_add(self, rhs: i16) -> (r: (i16, bool)) {
        let result = self.wrapping_add(rhs);
        (result, (result as u16) > (self as u16))
    }
}

impl CheckedArith for i32 {
    open spec fn spec_overflowing_add(self, rhs: i32) -> (i32, bool) {
        (self.wrapping_add(rhs), (self.wrapping_add(rhs) as u32) > (self as u32))
    }

    fn overflowing_add(self, rhs: i32) -> (r: (i32, bool)) {
        let result = self.wrapping_add(rhs);
        (result, (result as u32) > (self as u32))
    }
}

/// For unsigned numbers the flag is set exactly when the right operand is not zero and the
/// sum does not wrap: `checked_add` answers `None` for the sums that fit, and the wrapped
/// sum for the others and for adding zero.
pub proof fn lemma_unsigned_flag(a8: u8, b8: u8, a16: u16, b16: u16, a32: u32, b32: u32)
    ensures
        a8.spec_overflowing_add(b8).1 <==> (b8 != 0 && a8 + b8 <= u8::MAX),
        a16.spec_overflowing_add(b16).1 <==> (b16 != 0 && a16 + b16 <= u16::MAX),
        a32.spec_overflowing_add(b32).1 <==> (b32 != 0 && a32 + b32 <= u32::MAX),
{
    assert(a8.wrapping_add(b8) > a8 <==> (b8 != 0 && a8 + b8 <= u8::MAX)) by (bit_vector);
    assert(a16.wrapping_add(b16) > a16 <==> (b16 != 0 && a16 + b16 <= u16::MAX)) by (bit_vector);
    assert(a32.wrapping_add(b32) > a32 <==> (b32 != 0 && a32 + b32 <= u32::MAX)) by (bit_vector);
}

} // verus!
