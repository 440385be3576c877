use vstd::prelude::*;
use crate::device::{Device, tri};
use crate::error::{Error, SUCCESS, NOT_READY, TIMEOUT, ERROR_UNKNOWN};

verus! {

/// A fence: the driver's non-null handle for it, and the device it was made on.
#[derive(Debug)]
pub struct Fence {
    inner: u64,
    device: Device,
}

/// What the driver's fence-status code says: signaled, not yet signaled, or an error.
pub open spec fn status_of(code: i32) -> Result<bool, Error> {
    if code == SUCCESS {
        Ok(true)
    } else if code == NOT_READY {
        Ok(false)
    } else {
        Err(Error::Vulkan(code))
    }
}

/// What a wait answered, when it waited as long as it could: done, wait again, or an error.
pub open spec fn wait_outcome_of(code: i32) -> Option<Result<(), Error>> {
    if code == SUCCESS {
        Some(Ok(()))
    } else if code == TIMEOUT {
        None
    } else {
        Some(Err(Error::Vulkan(code)))
    }
}

/// What a bounded wait answered: signaled, timed out, or an error.
pub open spec fn bounded_wait_of(code: i32) -> Result<bool, Error> {
    if code == SUCCESS {
        Ok(true)
    } else if code == TIMEOUT {
        Ok(false)
    } else {
        Err(Error::Vulkan(code))
    }
}

impl Fence {
    #[verifier::type_invariant]
    spec fn handle_not_null(self) -> bool {
        self.inner != 0
    }

    /// The driver's handle for the fence.
    pub closed spec fn id_spec(&self) -> u64 {
        self.inner
    }

    /// The device the fence was made on.
    pub closed spec fn device_spec(&self) -> Device {
        self.device
    }

    /// The fence on `device` that creating one answered: the result code and the handle
    /// written; a null handle is an unknown error.
    pub fn from_created(result: i32, handle: u64, device: Device) -> (r: Result<Fence, Error>)
        ensures
            result != SUCCESS ==> r is Err && r->Err_0 == Error::Vulkan(result),
            result == SUCCESS && handle == 0 ==> r is Err && r->Err_0 == Error::Vulkan(ERROR_UNKNOWN),
            result == SUCCESS && handle != 0 ==> r is Ok && r->Ok_0.id_spec() == handle && r->Ok_0.device_spec() == device,
    {
        tri(result)?;
        if handle != 0 {
            Ok(Fence { inner: handle, device })
        } else {
            Err(Error::Vulkan(ERROR_UNKNOWN))
        }
    }

    /// The driver's handle for the fence; never zero.
    pub fn id(&self) -> (r: u64)
        ensures
            r == self.id_spec(),
            r != 0,
    {
        proof {
            use_type_invariant(self);
        }
        self.inner
    }

    /// The device the fence was made on.
    pub fn device(&self) -> (r: &Device)
        ensures
            *r == self.device_spec(),
    {
        &self.device
    }

    /// What the status code `code` says of the fence.
    pub fn status(code: i32) -> (r: Result<bool, Error>)
        ensures
            r == status_of(code),
    {
        if code == SUCCESS {
            Ok(true)
        } else if code == NOT_READY {
            Ok(false)
        } else {
            Err(Error::Vulkan(code))
        }
    }

    /// Whether the status code `code` says the fence is signaled.
    pub fn is_signaled(code: i32) -> (r: bool)
        ensures
            r == (status_of(code) == Ok::<bool, Error>(true)),
    {
        match Self::status(code) {
            Ok(true) => true,
            _ => false,
        }
    }

    /// Whether the status code `code` says the fence is not signaled yet.
    pub fn is_unsignaled(code: i32) -> (r: bool)
        ensures
            r == (status_of(code) == Ok::<bool, Error>(false)),
    {
        match Self::status(code) {
            Ok(false) => true,
            _ => false,
        }
    }

    /// What resetting the fence answered.
    pub fn reset(result: i32) -> (r: Result<(), Error>)
        ensures
            result == SUCCESS ==> r is Ok,
            result != SUCCESS ==> r == Err::<(), Error>(Error::Vulkan(result)),
    {
        tri(result)
    }

    /// What a wait for as long as possible answered: done, wait again (`None`), or an error.
    pub fn wait(code: i32) -> (r: Option<Result<(), Error>>)
        ensures
            r == wait_outcome_of(code),
    {
        if code == SUCCESS {
            Some(Ok(()))
        } else if code == TIMEOUT {
            None
        } else {
            Some(Err(Error::Vulkan(code)))
        }
    }

    /// What a wait of a given number of nanoseconds answered.
    pub fn wait_nanos(code: i32) -> (r: Result<bool, Error>)
        ensures
            r == bounded_wait_of(code),
    {
        if code == SUCCESS {
            Ok(true)
        } else if code == TIMEOUT {
            Ok(false)
        } else {
            Err(Error::Vulkan(code))
        }
    }
}

/// A wait of a timeout longer than one driver call can wait: as many waits of `u64::MAX`
/// nanoseconds as fit, then one wait of the rest.
pub struct TimeoutWait {
    full_waits_left: u128,
    rest: u64,
}

impl TimeoutWait {
    /// How many full-length waits are left.
    pub closed spec fn full_left(&self) -> u128 {
        self.full_waits_left
    }

    /// The length of the last wait.
    pub closed spec fn rest_spec(&self) -> u64 {
        self.rest
    }

    /// The waits for a timeout of `nanos` nanoseconds.
    pub fn wait_timeout(nanos: u128) -> (w: Self)
        ensures
            w.full_left() == nanos / (u64::MAX as u128),
            w.rest_spec() == nanos % (u64::MAX as u128),
    {
        let limit = u64::MAX as u128;
        let div = nanos / limit;
        let rest = (nanos % limit) as u64;
        TimeoutWait { full_waits_left: div, rest }
    }

    /// The number of nanoseconds of the next wait.
    pub fn next_wait(&self) -> (r: u64)
        ensures
            r == if self.full_left() > 0 { u64::MAX } else { self.rest_spec() },
    {
        if self.full_waits_left > 0 {
            u64::MAX
        } else {
            self.rest
        }
    }

    /// Takes in what the next wait answered: the final answer (signaled, timed out, or an
    /// error), or `None` when another wait is due.
    pub fn step(&mut self, code: i32) -> (r: Option<Result<bool, Error>>)
        ensures
            final(self).rest_spec() == old(self).rest_spec(),
            old(self).full_left() > 0 ==> {
                &&& code == SUCCESS ==> r == Some(Ok::<bool, Error>(true)) && final(self).full_left() == old(self).full_left()
                &&& code == TIMEOUT ==> r is None && final(self).full_left() == old(self).full_left() - 1
                &&& code != SUCCESS && code != TIMEOUT ==> r == Some(Err::<bool, Error>(Error::Vulkan(code))) && final(self).full_left() == old(self).full_left()
            },
            old(self).full_left() == 0 ==> r == Some(bounded_wait_of(code)) && final(self).full_left() == 0,
    {
        if self.full_waits_left > 0 {
            if code == SUCCESS {
                Some(Ok(true))
            } else if code == TIMEOUT {
                self.full_waits_left = self.full_waits_left - 1;
                None
            } else {
                Some(Err(Error::Vulkan(code)))
            }
        } else {
            Some(Fence::wait_nanos(code))
        }
    }
}

/// The waits planned for a timeout add up to exactly the timeout.
pub proof fn lemma_timeout_waits_add_up(nanos: u128)
    ensures
        (nanos / (u64::MAX as u128)) * (u64::MAX as int) + nanos % (u64::MAX as u128) == nanos,
        nanos % (u64::MAX as u128) < u64::MAX,
{
    vstd::arithmetic::div_mod::lemma_fundamental_div_mod(nanos as int, u64::MAX as int);
}

} // verus!
