use vstd::prelude::*;

verus! {

/// A boolean stored as one byte that is always 0 or 1, so that GPU code can read and write it.
#[derive(Clone, Copy, PartialEq, Eq, Structural, Debug, Hash)]
pub struct ExternBool {
    inner: u8,
}

impl View for ExternBool {
    type V = bool;

    closed spec fn view(&self) -> bool {
        self.inner == 1
    }
}

impl ExternBool {
    #[verifier::type_invariant]
    spec fn byte_is_bool(self) -> bool {
        self.inner == 0 || self.inner == 1
    }

    /// The byte that stores the value: 1 for `true`, 0 for `false`.
    pub closed spec fn byte(self) -> u8 {
        self.inner
    }

    /// Stores `v`.
    pub fn new(v: bool) -> (b: Self)
        ensures
            b@ == v,
            b.byte() == if v { 1u8 } else { 0u8 },
    {
        ExternBool { inner: if v { 1 } else { 0 } }
    }

    /// The stored value.
    pub fn get(self) -> (r: bool)
        ensures
            r == self@,
    {
        proof {
            use_type_invariant(&self);
        }
        self.inner == 1
    }

    /// Stores `true`.
    pub fn set(&mut self)
        ensures
            final(self)@,
            final(self).byte() == 1,
    {
        self.inner = 1;
    }
}

/// Two flags that store the same byte are the same flag: the byte is all a flag holds.
pub proof fn lemma_byte_determines(a: ExternBool, b: ExternBool)
    requires
        a.byte() == b.byte(),
    ensures
        a == b,
{
}

impl Default for ExternBool {
    /// Stores `false`.
    fn default() -> (b: Self)
        ensures
            !b@,
            b.byte() == 0,
    {
        ExternBool::new(false)
    }
}

impl vstd::std_specs::convert::FromSpecImpl<bool> for ExternBool {
    open spec fn obeys_from_spec() -> bool {
        true
    }

    closed spec fn from_spec(v: bool) -> ExternBool {
        ExternBool { inner: if v { 1 } else { 0 } }
    }
}

impl From<bool> for ExternBool {
    /// Stores `value`.
    fn from(value: bool) -> (b: Self)
        ensures
            b@ == value,
            b.byte() == if value { 1u8 } else { 0u8 },
    {
        Self::new(value)
    }
}

/// The byte value of an unlocked `ExternMutex`.
pub const UNLOCKED: u8 = 0;

/// The byte value of a locked `ExternMutex`.
pub const LOCKED: u8 = 1;

/// A lock stored as one byte, taken and released by GPU code.
pub struct ExternMutex {
    inner: u8,
}

impl View for ExternMutex {
    type V = u8;

    closed spec fn view(&self) -> u8 {
        self.inner
    }
}

impl ExternMutex {
    /// An unlocked lock.
    pub fn new() -> (m: Self)
        ensures
            m@ == UNLOCKED,
    {
        ExternMutex { inner: UNLOCKED }
    }

    /// Whether the lock is free.
    pub fn is_unlocked(&self) -> (r: bool)
        ensures
            r == (self@ == UNLOCKED),
    {
        self.inner == UNLOCKED
    }
}

} // verus!
